use word_highlight_assistant::commands::{
    browser_command, copy_failure_message, open_failure_message, Platform, WINDOW_NAME,
};

#[test]
fn window_name() {
    assert_eq!(WINDOW_NAME, "word_highlight_assistant");
}

#[test]
fn windows_browser_command() {
    let c = browser_command(Platform::Windows, "https://example.com").unwrap();
    assert_eq!(c.program, "cmd");
    assert_eq!(c.args, vec!["/c", "start", "", "https://example.com"]);
}

#[test]
fn macos_browser_command() {
    let c = browser_command(Platform::MacOs, "https://a.b").unwrap();
    assert_eq!(c.program, "open");
    assert_eq!(c.args, vec!["https://a.b"]);
}

#[test]
fn linux_browser_command() {
    let c = browser_command(Platform::Linux, "https://a.b").unwrap();
    assert_eq!(c.program, "xdg-open");
    assert_eq!(c.args, vec!["https://a.b"]);
}

#[test]
fn other_platform_starts_nothing() {
    assert!(browser_command(Platform::Other, "https://a.b").is_none());
}

#[test]
fn failure_messages() {
    assert_eq!(copy_failure_message("busy"), "复制失败: busy");
    assert_eq!(open_failure_message("not found"), "打开浏览器失败: not found");
}
