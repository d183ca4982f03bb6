//! The step vocabulary of planned gestures, and a model of the cursor
//! position that a run of steps leaves behind.

use vstd::prelude::*;

verus! {

/// Selector for the two supported mouse buttons.
#[derive(Clone, Copy, Debug, PartialEq, Eq, Structural)]
pub enum MouseButton {
    Left,
    Right,
}

/// One step of a planned gesture: an event handed to the platform, or a
/// fixed pause between two events.
#[derive(Clone, Copy, Debug, PartialEq, Eq, Structural)]
pub enum InputEvent {
    /// Press and hold a mouse button.
    ButtonDown(MouseButton),
    /// Release a mouse button.
    ButtonUp(MouseButton),
    /// Move the cursor to absolute screen coordinates.
    MoveCursor(i32, i32),
    /// Press and hold the key with this virtual key code.
    KeyDown(u8),
    /// Release the key with this virtual key code.
    KeyUp(u8),
    /// Block for this many milliseconds before the next step.
    Pause(u64),
}

/// Milliseconds a clicked button is held before it is released.
pub const CLICK_HOLD_MILLIS: u64 = 100;

/// Milliseconds between grabbing with the left button and the cursor move
/// of a drag.
pub const DRAG_GRAB_MILLIS: u64 = 100;

/// Milliseconds between the cursor move of a drag and the release of the
/// left button.
pub const DRAG_SETTLE_MILLIS: u64 = 500;

/// The cursor position left behind by running `events` with the cursor
/// starting at `pos`. Only `MoveCursor` steps change the modeled position;
/// every other step leaves it alone.
pub open spec fn cursor_after(pos: (int, int), events: Seq<InputEvent>) -> (int, int)
    decreases events.len(),
{
    if events.len() == 0 {
        pos
    } else {
        match events.last() {
            InputEvent::MoveCursor(x, y) => (x as int, y as int),
            _ => cursor_after(pos, events.drop_last()),
        }
    }
}

/// Runs the cursor model over a concrete list of steps.
pub fn cursor_after_events(pos: (i32, i32), events: &Vec<InputEvent>) -> (r: (i32, i32))
    ensures
        (r.0 as int, r.1 as int) == cursor_after((pos.0 as int, pos.1 as int), events@),
{
    let mut cur = pos;
    let mut i: usize = 0;
    while i < events.len()
        invariant
            i <= events@.len(),
            (cur.0 as int, cur.1 as int) == cursor_after(
                (pos.0 as int, pos.1 as int),
                events@.subrange(0, i as int),
            ),
        decreases events@.len() - i,
    {
        match events[i] {
            InputEvent::MoveCursor(x, y) => {
                cur = (x, y);
            }
            _ => {}
        }
        proof {
            assert(events@.subrange(0, i as int + 1).drop_last() =~= events@.subrange(
                0,
                i as int,
            ));
            assert(events@.subrange(0, i as int + 1).last() == events@[i as int]);
        }
        i = i + 1;
    }
    proof {
        assert(events@.subrange(0, events@.len() as int) =~= events@);
    }
    cur
}

/// The button selector is a closed enumeration: every value of it is one of
/// the two listed variants.
pub proof fn lemma_mouse_button_closed(button: MouseButton)
    ensures
        button == MouseButton::Left || button == MouseButton::Right,
{
}

} // verus!
