use input_injector::event::{cursor_after_events, InputEvent, MouseButton};
use input_injector::gesture::{
    click_mouse_button, click_mouse_button_left, click_mouse_button_right, drag_and_drop,
    press_key, set_cursor_pos,
};

#[test]
fn left_click_selector_matches_convenience() {
    assert_eq!(
        click_mouse_button(MouseButton::Left),
        click_mouse_button_left()
    );
}

#[test]
fn right_click_selector_matches_convenience() {
    assert_eq!(
        click_mouse_button(MouseButton::Right),
        click_mouse_button_right()
    );
}

#[test]
fn left_click_presses_pauses_and_releases() {
    let events = click_mouse_button(MouseButton::Left);
    assert_eq!(
        events,
        vec![
            InputEvent::ButtonDown(MouseButton::Left),
            InputEvent::Pause(100),
            InputEvent::ButtonUp(MouseButton::Left),
        ]
    );
}

#[test]
fn right_click_presses_pauses_and_releases() {
    let events = click_mouse_button(MouseButton::Right);
    assert_eq!(
        events,
        vec![
            InputEvent::ButtonDown(MouseButton::Right),
            InputEvent::Pause(100),
            InputEvent::ButtonUp(MouseButton::Right),
        ]
    );
}

#[test]
fn drag_performs_grab_move_settle_release_in_order() {
    let events = drag_and_drop(40, -7);
    assert_eq!(
        events,
        vec![
            InputEvent::ButtonDown(MouseButton::Left),
            InputEvent::Pause(100),
            InputEvent::MoveCursor(40, -7),
            InputEvent::Pause(500),
            InputEvent::ButtonUp(MouseButton::Left),
        ]
    );
}

#[test]
fn drag_pauses_are_long_enough() {
    let events = drag_and_drop(0, 0);
    assert!(matches!(events[1], InputEvent::Pause(d) if d >= 100));
    assert!(matches!(events[3], InputEvent::Pause(d) if d >= 500));
}

#[test]
fn press_key_pairs_down_and_up_with_nothing_between() {
    let events = press_key(0x41);
    assert_eq!(
        events,
        vec![InputEvent::KeyDown(0x41), InputEvent::KeyUp(0x41)]
    );
}

#[test]
fn press_key_keeps_the_smallest_and_largest_codes() {
    assert_eq!(
        press_key(0),
        vec![InputEvent::KeyDown(0), InputEvent::KeyUp(0)]
    );
    assert_eq!(
        press_key(255),
        vec![InputEvent::KeyDown(255), InputEvent::KeyUp(255)]
    );
}

#[test]
fn set_cursor_plans_one_move() {
    assert_eq!(set_cursor_pos(-3, 900), vec![InputEvent::MoveCursor(-3, 900)]);
}

#[test]
fn set_cursor_twice_is_idempotent_in_the_model() {
    let plan = set_cursor_pos(12, 34);
    let once = cursor_after_events((5, 6), &plan);
    let twice = cursor_after_events(once, &plan);
    assert_eq!(once, (12, 34));
    assert_eq!(twice, once);
}

#[test]
fn drag_leaves_cursor_at_drop_point() {
    let plan = drag_and_drop(-100, 250);
    assert_eq!(cursor_after_events((1, 2), &plan), (-100, 250));
}

#[test]
fn steps_other_than_moves_leave_the_cursor() {
    let events = vec![
        InputEvent::Pause(100),
        InputEvent::KeyDown(7),
        InputEvent::KeyUp(7),
        InputEvent::ButtonDown(MouseButton::Left),
        InputEvent::ButtonUp(MouseButton::Left),
    ];
    assert_eq!(cursor_after_events((8, 9), &events), (8, 9));
}
