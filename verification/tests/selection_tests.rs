use word_highlight_assistant::selection::{
    ActionOutcome, CaptureAction, KeyDirection, SelectionCapture, ShortcutKey, CLEAR_WAIT_MS,
    COPY_WAIT_MS,
};

fn describe(a: &CaptureAction) -> String {
    match a {
        CaptureAction::ReadClipboard => "read".to_string(),
        CaptureAction::ClearClipboard => "clear".to_string(),
        CaptureAction::Wait(ms) => format!("wait {}", ms),
        CaptureAction::OpenKeyboard => "open".to_string(),
        CaptureAction::Key(k, d) => format!("{:?} {:?}", k, d),
        CaptureAction::WriteClipboard(t) => format!("write {}", t),
        CaptureAction::Finish(r) => format!("finish {:?}", r),
    }
}

/// Runs a capture, answering each action with the given clipboard contents and
/// failing the keyboard step `fail_at` (if any), and returns the actions taken.
fn run_capture(backup: Option<&str>, copied: Option<&str>, fail_at: Option<usize>) -> Vec<String> {
    let (mut state, mut action) = SelectionCapture::start();
    let mut log = Vec::new();
    let mut reads = 0;
    let mut keys = 0;
    loop {
        log.push(describe(&action));
        let outcome = match &action {
            CaptureAction::Finish(_) => break,
            CaptureAction::ReadClipboard => {
                reads += 1;
                let t = if reads == 1 { backup } else { copied };
                ActionOutcome::Text(t.map(|s| s.to_string()))
            }
            CaptureAction::OpenKeyboard | CaptureAction::Key(_, _) => {
                keys += 1;
                if fail_at == Some(keys) {
                    ActionOutcome::Failed
                } else {
                    ActionOutcome::Completed
                }
            }
            _ => ActionOutcome::Completed,
        };
        let (s, a) = state.step(outcome);
        state = s;
        action = a;
    }
    assert!(state.is_done());
    log
}

#[test]
fn full_capture_restores_backup() {
    let log = run_capture(Some("old"), Some("picked"), None);
    assert_eq!(
        log,
        vec![
            "read".to_string(),
            "clear".to_string(),
            format!("wait {}", CLEAR_WAIT_MS),
            "open".to_string(),
            format!("{:?} {:?}", ShortcutKey::Control, KeyDirection::Press),
            format!("{:?} {:?}", ShortcutKey::C, KeyDirection::Press),
            format!("{:?} {:?}", ShortcutKey::C, KeyDirection::Release),
            format!("{:?} {:?}", ShortcutKey::Control, KeyDirection::Release),
            format!("wait {}", COPY_WAIT_MS),
            "read".to_string(),
            "write old".to_string(),
            "finish Some(\"picked\")".to_string(),
        ]
    );
}

#[test]
fn empty_backup_clears_again() {
    let log = run_capture(None, Some("x"), None);
    assert_eq!(log[10], "clear");
    assert_eq!(log[11], "finish Some(\"x\")");
}

#[test]
fn blank_copy_gives_nothing() {
    let log = run_capture(Some("old"), Some("  \n"), None);
    assert_eq!(log.last().unwrap(), "finish None");
    assert_eq!(log[10], "write old");
}

#[test]
fn keyboard_failure_restores_clipboard() {
    for fail in 1..=5 {
        let log = run_capture(Some("old"), Some("picked"), Some(fail));
        assert_eq!(log.len(), 5 + fail);
        assert_eq!(log[log.len() - 2], "write old");
        assert_eq!(log.last().unwrap(), "finish None");
    }
}

#[test]
fn keyboard_failure_with_empty_clipboard_clears_it() {
    let log = run_capture(None, Some("picked"), Some(1));
    assert_eq!(log, vec!["read", "clear", "wait 50", "open", "clear", "finish None"]);
}

#[test]
fn step_after_done_finishes_with_nothing() {
    let (s, _) = SelectionCapture::start();
    let (s, _) = s.step(ActionOutcome::Text(None));
    let (s, _) = s.step(ActionOutcome::Completed);
    let (s, _) = s.step(ActionOutcome::Completed);
    let (s, a) = s.step(ActionOutcome::Failed);
    assert!(!s.is_done());
    assert!(matches!(a, CaptureAction::ClearClipboard));
    let (s, a) = s.step(ActionOutcome::Completed);
    assert!(s.is_done());
    assert!(matches!(a, CaptureAction::Finish(None)));
    let (s, a) = s.step(ActionOutcome::Completed);
    assert!(s.is_done());
    assert!(matches!(a, CaptureAction::Finish(None)));
}
