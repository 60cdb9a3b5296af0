use word_highlight_assistant::placement::Monitor;
use word_highlight_assistant::popup::{PopupAction, PopupFlow, PopupOutcome};

fn describe(a: &PopupAction) -> String {
    match a {
        PopupAction::ReadSelection => "read".to_string(),
        PopupAction::EmitTextSelected(t) => format!("text_selected {}", t),
        PopupAction::FindToolbarWindow => "find".to_string(),
        PopupAction::SendToToolbar(t) => format!("set_text {}", t),
        PopupAction::QueryScreens => "screens".to_string(),
        PopupAction::MoveToolbar(x, y) => format!("move {} {}", x, y),
        PopupAction::ShowToolbar => "show".to_string(),
        PopupAction::FocusToolbar => "focus".to_string(),
        PopupAction::Stop => "stop".to_string(),
    }
}

fn run(allowed: bool, text: Option<&str>, window: bool, cursor: (i32, i32)) -> Vec<String> {
    let (mut flow, mut action) = PopupFlow::start(allowed);
    let mut log = Vec::new();
    loop {
        log.push(describe(&action));
        let outcome = match &action {
            PopupAction::Stop => break,
            PopupAction::ReadSelection => PopupOutcome::Selection(text.map(|t| t.to_string())),
            PopupAction::FindToolbarWindow => PopupOutcome::WindowFound(window),
            PopupAction::QueryScreens => PopupOutcome::Screens(
                vec![Monitor { x: 0, y: 0, width: 1920, height: 1080 }],
                None,
                cursor.0,
                cursor.1,
            ),
            _ => PopupOutcome::Completed,
        };
        let (f, a) = flow.step(outcome);
        flow = f;
        action = a;
    }
    assert!(flow.is_done());
    log
}

#[test]
fn full_popup_in_order() {
    assert_eq!(
        run(true, Some("词"), true, (100, 200)),
        vec![
            "read",
            "text_selected 词",
            "find",
            "set_text 词",
            "screens",
            "move 110 210",
            "show",
            "focus",
            "stop"
        ]
    );
}

#[test]
fn popup_flush_near_edge() {
    let log = run(true, Some("x"), true, (1900, 1070));
    assert_eq!(log[5], "move 1570 1040");
}

#[test]
fn blocked_popup_does_nothing() {
    assert_eq!(run(false, Some("x"), true, (1, 1)), vec!["stop"]);
}

#[test]
fn no_text_stops_before_any_event() {
    assert_eq!(run(true, None, true, (1, 1)), vec!["read", "stop"]);
}

#[test]
fn missing_window_stops_after_front_end_event() {
    assert_eq!(
        run(true, Some("t"), false, (1, 1)),
        vec!["read", "text_selected t", "find", "stop"]
    );
}
