use word_highlight_assistant::listener::{
    Emission, ListenerState, MouseEvent, SELECTION_DELAY_MS, SET_TEXT_EVENT, TEXT_SELECTED_EVENT,
};

#[test]
fn position_unknown_before_any_move() {
    let s = ListenerState::new();
    assert_eq!(s.get_mouse_position(), Err("鼠标位置未初始化".to_string()));
}

#[test]
fn position_read_after_move() {
    let mut s = ListenerState::new();
    let out = s.handle_event(MouseEvent::Move(120, -5));
    assert!(matches!(out.emission, Emission::MouseMove));
    assert!(!out.show_selection);
    assert_eq!(s.get_mouse_position(), Ok((120, -5)));
    s.handle_event(MouseEvent::Move(0, 0));
    assert!(s.get_mouse_position().is_err());
    s.handle_event(MouseEvent::Move(0, 7));
    assert_eq!(s.get_mouse_position(), Ok((0, 7)));
}

#[test]
fn closing_toolbar_blocks_until_press() {
    let mut s = ListenerState::new();
    assert!(s.selection_allowed());
    s.toolbar_closed();
    assert!(!s.selection_allowed());
    s.handle_event(MouseEvent::Move(1, 1));
    s.handle_event(MouseEvent::Wheel(3));
    s.handle_event(MouseEvent::Up("Left".to_string()));
    assert!(!s.selection_allowed());
    let out = s.handle_event(MouseEvent::Down("Left".to_string()));
    assert!(matches!(out.emission, Emission::MouseDown(ref n) if n == "Left"));
    assert!(s.selection_allowed());
}

#[test]
fn every_release_reads_selection() {
    let mut s = ListenerState::new();
    let first = s.handle_event(MouseEvent::Up("Left".to_string()));
    assert!(first.show_selection);
    assert!(matches!(first.emission, Emission::MouseUp(ref n) if n == "Left"));
    let again = s.handle_event(MouseEvent::Up("Right".to_string()));
    assert!(again.show_selection);
    let press = s.handle_event(MouseEvent::Down("Left".to_string()));
    assert!(!press.show_selection);
    let moved = s.handle_event(MouseEvent::Move(3, 4));
    assert!(!moved.show_selection);
}

#[test]
fn release_after_closing_is_read_but_not_allowed() {
    let mut s = ListenerState::new();
    s.toolbar_closed();
    let out = s.handle_event(MouseEvent::Up("Left".to_string()));
    assert!(out.show_selection);
    assert!(!s.selection_allowed());
}

#[test]
fn channels() {
    assert_eq!(Emission::MouseMove.channel(), "global_mouse_move");
    assert_eq!(Emission::MouseDown("a".to_string()).channel(), "global_mouse_down");
    assert_eq!(Emission::MouseUp("a".to_string()).channel(), "global_mouse_up");
    assert_eq!(Emission::Wheel(-1).channel(), "global_wheel");
}

#[test]
fn wheel_is_forwarded() {
    let mut s = ListenerState::new();
    let out = s.handle_event(MouseEvent::Wheel(-2));
    assert!(matches!(out.emission, Emission::Wheel(-2)));
    assert!(!out.show_selection);
}

#[test]
fn event_names_and_delay() {
    assert_eq!(TEXT_SELECTED_EVENT, "text_selected");
    assert_eq!(SET_TEXT_EVENT, "set_text");
    assert_eq!(SELECTION_DELAY_MS, 200);
}
