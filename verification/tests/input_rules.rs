use vitaforge::input::{
    held_dpad_direction, map_button_press, map_key_press, AppCommand, Deferred, InputCommand, Key, PadButton, Pointer,
    PointerAction, StoreTab, TouchPhase, TOUCH_MOUSE_ID,
};

#[test]
fn a_press_moves_before_it_presses() {
    let mut pointer = Pointer::for_touch_device(7);
    assert_eq!(pointer.on_finger(TouchPhase::Down, 7, 1), PointerAction::Press);
}

#[test]
fn a_second_finger_does_not_steal_the_drag() {
    let mut pointer = Pointer::for_touch_device(7);
    assert_eq!(pointer.on_finger(TouchPhase::Down, 7, 1), PointerAction::Press);
    assert_eq!(pointer.on_finger(TouchPhase::Down, 7, 2), PointerAction::Ignore);
    assert_eq!(pointer.on_finger(TouchPhase::Motion, 7, 2), PointerAction::Ignore);
    assert_eq!(pointer.on_finger(TouchPhase::Motion, 7, 1), PointerAction::Move);
}

#[test]
fn the_rear_pad_is_not_a_pointer() {
    let mut pointer = Pointer::for_touch_device(0);
    assert_eq!(pointer.on_finger(TouchPhase::Down, 7, 1), PointerAction::Ignore);
}

#[test]
fn the_pointer_leaves_a_frame_after_the_finger_lifts() {
    let mut pointer = Pointer::for_touch_device(7);
    pointer.on_finger(TouchPhase::Down, 7, 1);
    assert_eq!(pointer.on_finger(TouchPhase::Up, 7, 1), PointerAction::Release);
    assert_eq!(pointer.deferred(), Deferred { cancel: false, gone: true });
    assert_eq!(pointer.deferred(), Deferred { cancel: false, gone: false });
}

#[test]
fn touch_emulated_mouse_events_are_dropped() {
    let mut pointer = Pointer::for_touch_device(7);
    assert!(!pointer.accepts_mouse(TOUCH_MOUSE_ID));
    assert!(pointer.accepts_mouse(0));
    pointer.on_finger(TouchPhase::Down, 7, 1);
    assert!(!pointer.accepts_mouse(0));
}

#[test]
fn losing_focus_cancels_a_held_press() {
    let mut pointer = Pointer::for_touch_device(7);
    pointer.on_finger(TouchPhase::Down, 7, 3);
    pointer.forget_touch();
    assert_eq!(pointer.deferred(), Deferred { cancel: true, gone: true });
    assert_eq!(pointer.on_finger(TouchPhase::Up, 7, 3), PointerAction::Ignore);
    pointer.forget_touch();
    assert_eq!(pointer.deferred(), Deferred { cancel: false, gone: true });
}

#[test]
fn keys_and_buttons_map_to_commands() {
    assert_eq!(map_key_press(Key::Escape, false), Some(AppCommand::Input(InputCommand::Back)));
    assert_eq!(map_key_press(Key::PageUp, false), Some(AppCommand::Input(InputCommand::CategoryPrev)));
    assert_eq!(map_key_press(Key::Slash, false), Some(AppCommand::RequestSearch));
    assert_eq!(map_key_press(Key::S, false), Some(AppCommand::FlipSortDirection));
    assert_eq!(map_key_press(Key::Up, true), None);
    assert_eq!(map_key_press(Key::Other, false), None);
    assert_eq!(map_button_press(PadButton::A), Some(AppCommand::Input(InputCommand::Confirm)));
    assert_eq!(map_button_press(PadButton::Start), Some(AppCommand::OpenSettings));
    assert_eq!(map_button_press(PadButton::DPadUp), None);
    assert_eq!(AppCommand::from(InputCommand::MoveLeft), AppCommand::Input(InputCommand::MoveLeft));
}

#[test]
fn the_dpad_checks_up_first() {
    assert_eq!(held_dpad_direction(true, true, false, false), Some(InputCommand::MoveUp));
    assert_eq!(held_dpad_direction(false, false, true, true), Some(InputCommand::MoveLeft));
    assert_eq!(held_dpad_direction(false, false, false, false), None);
    assert_eq!(StoreTab::default_tab(), StoreTab::Discover);
}
