//! Planners for the supported gestures, with proofs of their sequencing and
//! timing laws.
//!
//! Each planner returns the exact list of steps that realizes its gesture;
//! the contract equates that list with a spec-level plan written out in
//! full, so a caller knows every step and every pause.

use vstd::prelude::*;

use crate::event::{
    cursor_after, InputEvent, MouseButton, CLICK_HOLD_MILLIS, DRAG_GRAB_MILLIS,
    DRAG_SETTLE_MILLIS,
};

verus! {

/// The steps of a click: press the chosen button, hold it for
/// `CLICK_HOLD_MILLIS`, release the same button.
pub open spec fn click_plan(button: MouseButton) -> Seq<InputEvent> {
    seq![
        InputEvent::ButtonDown(button),
        InputEvent::Pause(CLICK_HOLD_MILLIS),
        InputEvent::ButtonUp(button),
    ]
}

/// The steps of the fixed left-button click.
pub open spec fn click_left_plan() -> Seq<InputEvent> {
    seq![
        InputEvent::ButtonDown(MouseButton::Left),
        InputEvent::Pause(CLICK_HOLD_MILLIS),
        InputEvent::ButtonUp(MouseButton::Left),
    ]
}

/// The steps of the fixed right-button click.
pub open spec fn click_right_plan() -> Seq<InputEvent> {
    seq![
        InputEvent::ButtonDown(MouseButton::Right),
        InputEvent::Pause(CLICK_HOLD_MILLIS),
        InputEvent::ButtonUp(MouseButton::Right),
    ]
}

/// The single step that moves the cursor to absolute coordinates (x, y).
pub open spec fn set_cursor_plan(x: i32, y: i32) -> Seq<InputEvent> {
    seq![InputEvent::MoveCursor(x, y)]
}

/// The steps of a drag-and-drop ending at (x, y): grab with the left
/// button, pause, move the cursor, pause, release.
pub open spec fn drag_plan(x: i32, y: i32) -> Seq<InputEvent> {
    seq![
        InputEvent::ButtonDown(MouseButton::Left),
        InputEvent::Pause(DRAG_GRAB_MILLIS),
        InputEvent::MoveCursor(x, y),
        InputEvent::Pause(DRAG_SETTLE_MILLIS),
        InputEvent::ButtonUp(MouseButton::Left),
    ]
}

/// The steps of a key press: press the key, release the same key, with no
/// step in between.
pub open spec fn press_key_plan(key: u8) -> Seq<InputEvent> {
    seq![InputEvent::KeyDown(key), InputEvent::KeyUp(key)]
}

/// Plans the move of the cursor to absolute screen coordinates (x, y).
/// Coordinates are not validated: out-of-range values are planned as given
/// and left to the platform.
pub fn set_cursor_pos(x: i32, y: i32) -> (events: Vec<InputEvent>)
    ensures
        events@ == set_cursor_plan(x, y),
{
    let mut events: Vec<InputEvent> = Vec::new();
    events.push(InputEvent::MoveCursor(x, y));
    proof {
        assert(events@ =~= set_cursor_plan(x, y));
    }
    events
}

/// Plans a drag-and-drop from the current cursor position to (x, y).
pub fn drag_and_drop(x: i32, y: i32) -> (events: Vec<InputEvent>)
    ensures
        events@ == drag_plan(x, y),
{
    let mut events: Vec<InputEvent> = Vec::new();
    events.push(InputEvent::ButtonDown(MouseButton::Left));
    events.push(InputEvent::Pause(DRAG_GRAB_MILLIS));
    events.push(InputEvent::MoveCursor(x, y));
    events.push(InputEvent::Pause(DRAG_SETTLE_MILLIS));
    events.push(InputEvent::ButtonUp(MouseButton::Left));
    proof {
        assert(events@ =~= drag_plan(x, y));
    }
    events
}

/// Plans a click of the chosen mouse button.
pub fn click_mouse_button(button: MouseButton) -> (events: Vec<InputEvent>)
    ensures
        events@ == click_plan(button),
{
    let mut events: Vec<InputEvent> = Vec::new();
    match button {
        MouseButton::Left => {
            events.push(InputEvent::ButtonDown(MouseButton::Left));
            events.push(InputEvent::Pause(CLICK_HOLD_MILLIS));
            events.push(InputEvent::ButtonUp(MouseButton::Left));
        }
        MouseButton::Right => {
            events.push(InputEvent::ButtonDown(MouseButton::Right));
            events.push(InputEvent::Pause(CLICK_HOLD_MILLIS));
            events.push(InputEvent::ButtonUp(MouseButton::Right));
        }
    }
    proof {
        assert(events@ =~= click_plan(button));
    }
    events
}

/// Plans a left-button click.
pub fn click_mouse_button_left() -> (events: Vec<InputEvent>)
    ensures
        events@ == click_left_plan(),
{
    let mut events: Vec<InputEvent> = Vec::new();
    events.push(InputEvent::ButtonDown(MouseButton::Left));
    events.push(InputEvent::Pause(CLICK_HOLD_MILLIS));
    events.push(InputEvent::ButtonUp(MouseButton::Left));
    proof {
        assert(events@ =~= click_left_plan());
    }
    events
}

/// Plans a right-button click.
pub fn click_mouse_button_right() -> (events: Vec<InputEvent>)
    ensures
        events@ == click_right_plan(),
{
    let mut events: Vec<InputEvent> = Vec::new();
    events.push(InputEvent::ButtonDown(MouseButton::Right));
    events.push(InputEvent::Pause(CLICK_HOLD_MILLIS));
    events.push(InputEvent::ButtonUp(MouseButton::Right));
    proof {
        assert(events@ =~= click_right_plan());
    }
    events
}

/// Plans a press and immediate release of the key with virtual key code
/// `key`. The code is not validated: any one-byte value is planned as given.
pub fn press_key(key: u8) -> (events: Vec<InputEvent>)
    ensures
        events@ == press_key_plan(key),
{
    let mut events: Vec<InputEvent> = Vec::new();
    events.push(InputEvent::KeyDown(key));
    events.push(InputEvent::KeyUp(key));
    proof {
        assert(events@ =~= press_key_plan(key));
    }
    events
}

/// A left click asked for through the button selector and the fixed
/// left-button click produce identical steps: the same press/release
/// sequence with the same hold delay.
pub proof fn lemma_click_left_agrees()
    ensures
        click_plan(MouseButton::Left) == click_left_plan(),
{
    assert(click_plan(MouseButton::Left) =~= click_left_plan());
}

/// A right click asked for through the button selector and the fixed
/// right-button click produce identical steps.
pub proof fn lemma_click_right_agrees()
    ensures
        click_plan(MouseButton::Right) == click_right_plan(),
{
    assert(click_plan(MouseButton::Right) =~= click_right_plan());
}

/// A drag-and-drop performs exactly this order: left press, a pause of at
/// least 100 ms, the cursor move, a pause of at least 500 ms, left release.
pub proof fn lemma_drag_order(x: i32, y: i32)
    ensures
        drag_plan(x, y).len() == 5,
        drag_plan(x, y)[0] == InputEvent::ButtonDown(MouseButton::Left),
        drag_plan(x, y)[1] matches InputEvent::Pause(d) && d >= 100,
        drag_plan(x, y)[2] == InputEvent::MoveCursor(x, y),
        drag_plan(x, y)[3] matches InputEvent::Pause(d) && d >= 500,
        drag_plan(x, y)[4] == InputEvent::ButtonUp(MouseButton::Left),
{
}

/// A key press issues a press event and a release event for the same code,
/// with no step between the two.
pub proof fn lemma_press_key_paired(key: u8)
    ensures
        press_key_plan(key).len() == 2,
        press_key_plan(key)[0] == InputEvent::KeyDown(key),
        press_key_plan(key)[1] == InputEvent::KeyUp(key),
{
}

/// Moving the cursor is idempotent in the cursor model: running the move
/// steps a second time leaves the position exactly where the first run put
/// it, from any starting position.
pub proof fn lemma_set_cursor_idempotent(pos: (int, int), x: i32, y: i32)
    ensures
        cursor_after(cursor_after(pos, set_cursor_plan(x, y)), set_cursor_plan(x, y))
            == cursor_after(pos, set_cursor_plan(x, y)),
{
}

/// A drag-and-drop leaves the cursor at its drop coordinates, from any
/// starting position.
pub proof fn lemma_drag_moves_cursor(pos: (int, int), x: i32, y: i32)
    ensures
        cursor_after(pos, drag_plan(x, y)) == (x as int, y as int),
{
    let p = drag_plan(x, y);
    let p1 = p.drop_last();
    let p2 = p1.drop_last();
    assert(p.last() == InputEvent::ButtonUp(MouseButton::Left));
    assert(p1.last() == InputEvent::Pause(DRAG_SETTLE_MILLIS));
    assert(p2.last() == InputEvent::MoveCursor(x, y));
    assert(cursor_after(pos, p2) == (x as int, y as int));
    assert(cursor_after(pos, p1) == cursor_after(pos, p2));
    assert(cursor_after(pos, p) == cursor_after(pos, p1));
}

} // verus!
