//! What the commands of the front end decide: which text the toolbar window shows,
//! how the browser is started for a URL, and the messages of failed commands.
use vstd::prelude::*;
use crate::selection::accepted;
use crate::text::{has_content, is_white_space, lemma_trim_empty_iff_blank, lemma_trim_keeps_whole_middle, trim, trimmed};

verus! {

/// Label of the toolbar window.
pub const WINDOW_NAME: &'static str = "word_highlight_assistant";

/// The text that `show_text_in_window` hands to the toolbar window: the text without
/// white space at its ends, or nothing (and the window stays as it is) when that
/// leaves nothing.
pub open spec fn text_to_show(text: Seq<char>) -> Option<Seq<char>> {
    if trimmed(text).len() > 0 {
        Some(trimmed(text))
    } else {
        None
    }
}

/// The text to send to the toolbar window on `selection-changed`, if any.
pub fn show_text_in_window(text: &str) -> (r: Option<String>)
    ensures
        r matches Some(t) ==> text_to_show(text@) == Some(t@),
        r is None ==> text_to_show(text@) is None,
        r is None <==> !has_content(text@),
        r matches Some(t) ==> exists|a: int, b: int|
            #![trigger text@.subrange(a, b)]
            0 <= a < b <= text@.len() && t@ == text@.subrange(a, b) && (forall|i: int|
                (0 <= i < a || b <= i < text@.len()) ==> is_white_space(#[trigger] text@[i]))
                && !is_white_space(text@[a]) && !is_white_space(text@[b - 1]),
{
    proof {
        lemma_shown_text_is_whole(text@);
    }
    let trimmed_text = trim(text);
    if !trimmed_text.is_empty() {
        Some(String::from_str(trimmed_text))
    } else {
        None
    }
}

/// The window is handed nothing exactly when the text is all white space; otherwise it
/// is handed the whole text from its first character that is not white space to its
/// last, with only white space dropped around it and nothing cut inside, whatever the
/// length.
pub proof fn lemma_shown_text_is_whole(text: Seq<char>)
    ensures
        text_to_show(text) is None <==> !has_content(text),
        text_to_show(text) matches Some(r) ==> exists|a: int, b: int|
            #![trigger text.subrange(a, b)]
            0 <= a < b <= text.len() && r == text.subrange(a, b) && (forall|i: int|
                (0 <= i < a || b <= i < text.len()) ==> is_white_space(#[trigger] text[i]))
                && !is_white_space(text[a]) && !is_white_space(text[b - 1]),
{
    lemma_trim_empty_iff_blank(text);
    lemma_trim_keeps_whole_middle(text);
}

/// A copied text that the capture keeps is exactly one that the toolbar window shows
/// when it is handed over: the capture's blank test and the window's trimming agree.
pub proof fn lemma_shown_iff_kept(text: String)
    ensures
        text_to_show(text@) is Some <==> accepted(Some(text)) is Some,
{
    lemma_trim_empty_iff_blank(text@);
}

/// The systems the browser can be started on.
#[derive(Clone, Copy, Debug, PartialEq, Eq)]
pub enum Platform {
    Windows,
    MacOs,
    Linux,
    /// Any other system: no browser is started.
    Other,
}

/// A program to run and its arguments.
pub struct LaunchCommand {
    pub program: String,
    pub args: Vec<String>,
}

/// The program and arguments that open `url` in the default browser: `cmd /c start ""
/// url` on Windows, `open url` on macOS, `xdg-open url` on Linux, nothing elsewhere.
pub open spec fn launch_spec(platform: Platform, url: Seq<char>) -> Option<(Seq<char>, Seq<Seq<char>>)> {
    match platform {
        Platform::Windows => Some(("cmd"@, seq!["/c"@, "start"@, ""@, url])),
        Platform::MacOs => Some(("open"@, seq![url])),
        Platform::Linux => Some(("xdg-open"@, seq![url])),
        Platform::Other => None,
    }
}

/// The arguments as text.
pub open spec fn args_view(args: Seq<String>) -> Seq<Seq<char>> {
    args.map_values(|a: String| a@)
}

/// On Windows, macOS and Linux a browser is always started, whatever characters the
/// URL holds, and the URL is handed to it unchanged as the last argument; its other
/// arguments do not depend on the URL.
pub proof fn lemma_launch_opens_any_url(platform: Platform, url: Seq<char>, other: Seq<char>)
    ensures
        (launch_spec(platform, url) is Some) <==> platform != Platform::Other,
        launch_spec(platform, url) matches Some((program, args)) ==> {
            &&& args.len() > 0
            &&& args.last() == url
            &&& launch_spec(platform, other) matches Some((program2, args2))
            &&& program2 == program
            &&& args2.len() == args.len()
            &&& args2.drop_last() == args.drop_last()
        },
{
    match platform {
        Platform::Windows => {
            assert(seq!["/c"@, "start"@, ""@, url].drop_last() =~= seq!["/c"@, "start"@, ""@, other].drop_last());
        },
        Platform::MacOs => {
            assert(seq![url].drop_last() =~= seq![other].drop_last());
        },
        Platform::Linux => {
            assert(seq![url].drop_last() =~= seq![other].drop_last());
        },
        Platform::Other => {},
    }
}

/// The command that opens `url` in the default browser on `platform`.
pub fn browser_command(platform: Platform, url: &str) -> (r: Option<LaunchCommand>)
    ensures
        r matches Some(c) ==> launch_spec(platform, url@) == Some((c.program@, args_view(c.args@))),
        r is None <==> launch_spec(platform, url@) is None,
        r is Some <==> platform != Platform::Other,
        r matches Some(c) ==> c.args@.len() > 0 && c.args@.last()@ == url@,
{
    match platform {
        Platform::Windows => {
            let mut args: Vec<String> = Vec::new();
            args.push(String::from_str("/c"));
            args.push(String::from_str("start"));
            args.push(String::from_str(""));
            args.push(String::from_str(url));
            assert(args_view(args@) =~= seq!["/c"@, "start"@, ""@, url@]);
            Some(LaunchCommand { program: String::from_str("cmd"), args })
        },
        Platform::MacOs => {
            let mut args: Vec<String> = Vec::new();
            args.push(String::from_str(url));
            assert(args_view(args@) =~= seq![url@]);
            Some(LaunchCommand { program: String::from_str("open"), args })
        },
        Platform::Linux => {
            let mut args: Vec<String> = Vec::new();
            args.push(String::from_str(url));
            assert(args_view(args@) =~= seq![url@]);
            Some(LaunchCommand { program: String::from_str("xdg-open"), args })
        },
        Platform::Other => None,
    }
}

/// The message of a failed copy to the clipboard, `detail` being the error's text.
pub fn copy_failure_message(detail: &str) -> (r: String)
    ensures
        r@ == "复制失败: "@ + detail@,
{
    let mut m = String::from_str("复制失败: ");
    m.append(detail);
    m
}

/// The message of a browser that could not be started, `detail` being the error's text.
pub fn open_failure_message(detail: &str) -> (r: String)
    ensures
        r@ == "打开浏览器失败: "@ + detail@,
{
    let mut m = String::from_str("打开浏览器失败: ");
    m.append(detail);
    m
}

} // verus!
