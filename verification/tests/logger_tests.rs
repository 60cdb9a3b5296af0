use word_highlight_assistant::logger::{Logger, LINE, SMALL_LINE};

#[test]
fn format_args_empty_is_empty() {
    let none: [&str; 0] = [];
    assert_eq!(Logger::format_args(&none), "");
}

#[test]
fn format_args_quotes_each_argument_on_its_own_line() {
    assert_eq!(Logger::format_args(&["a", "b c"]), "\"a\"\n\"b c\"");
}

#[test]
fn format_args_escapes_like_debug() {
    assert_eq!(Logger::format_args(&["say \"hi\"\n"]), "\"say \\\"hi\\\"\\n\"");
}

#[test]
fn render_without_content_has_no_small_line() {
    let log = Logger::render("INFO", "标题", "");
    assert_eq!(log, format!("{}\n[INFO] 标题\n{}", LINE, LINE));
    assert!(!log.contains(SMALL_LINE));
}

#[test]
fn render_with_content() {
    let log = Logger::render("ERROR", "t", "body");
    assert_eq!(log, format!("{}\n[ERROR] t\n{}\nbody\n{}", LINE, SMALL_LINE, LINE));
}

#[test]
fn rules_are_fifty_characters() {
    assert_eq!(LINE.chars().count(), 50);
    assert!(LINE.chars().all(|c| c == '='));
    assert_eq!(SMALL_LINE.chars().count(), 50);
    assert!(SMALL_LINE.chars().all(|c| c == '-'));
}

#[test]
fn info_entry() {
    let log = Logger::info("工具栏已关闭", &["禁止发送 set_text 直到下次鼠标按下"]);
    assert_eq!(
        log,
        format!(
            "{}\n[INFO] 工具栏已关闭\n{}\n\"禁止发送 set_text 直到下次鼠标按下\"\n{}",
            LINE, SMALL_LINE, LINE
        )
    );
}

#[test]
fn error_and_success_levels() {
    let e = Logger::error("x", &["y"]);
    assert!(e.contains("\n[ERROR] x\n"));
    let s = Logger::success("系统启动", &["[双击触发] 全局划词监听已启动...", "main"]);
    assert_eq!(
        s,
        format!(
            "{}\n[SUCCESS] 系统启动\n{}\n\"[双击触发] 全局划词监听已启动...\"\n\"main\"\n{}",
            LINE, SMALL_LINE, LINE
        )
    );
}

#[test]
fn info_without_args_is_short() {
    let none: [&str; 0] = [];
    assert_eq!(Logger::info("t", &none), format!("{}\n[INFO] t\n{}", LINE, LINE));
}

#[test]
fn format_rendered_joins_debug_forms_of_integers() {
    let rendered: Vec<String> = [1, 22].iter().map(|x| format!("{:?}", x)).collect();
    assert_eq!(Logger::format_rendered(&rendered), "1\n22");
}

#[test]
fn format_rendered_empty() {
    assert_eq!(Logger::format_rendered(&[]), "");
}

#[test]
fn entry_with_integer_arguments() {
    let rendered: Vec<String> = [1, 2].iter().map(|x| format!("{:?}", x)).collect();
    assert_eq!(
        Logger::entry("INFO", "T", &rendered),
        format!("{}\n[INFO] T\n{}\n1\n2\n{}", LINE, SMALL_LINE, LINE)
    );
}

#[test]
fn entry_agrees_with_info_on_strings() {
    let rendered = vec![format!("{:?}", "x y"), format!("{:?}", "z")];
    assert_eq!(Logger::entry("INFO", "t", &rendered), Logger::info("t", &["x y", "z"]));
}
