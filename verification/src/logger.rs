//! Framed log entries: a rule, the level and title, the arguments one per line,
//! and a closing rule.
use vstd::prelude::*;

verus! {

/// What `{:?}` prints for a string: the text quoted, with special characters escaped.
pub uninterp spec fn debug_repr(s: Seq<char>) -> Seq<char>;

/// A string's debug form is quoted and holds no line break: std writes a double quote
/// at each end and escapes a newline inside as a backslash and `n`.
pub open spec fn quoted_one_line(r: Seq<char>) -> bool {
    &&& r.len() >= 2
    &&& r[0] == '"'
    &&& r.last() == '"'
    &&& !r.contains('\n')
}

/// `<str as Debug>::fmt` through `format!("{:?}")`: the claim is that the result is the
/// named rendering of `s`, quoted at both ends and free of line breaks; the escaping of
/// the characters inside is left to std.
#[verifier::external_body]
fn debug_string(s: &str) -> (r: String)
    ensures
        r@ == debug_repr(s@),
        quoted_one_line(r@),
{
    format!("{:?}", s)
}

/// The lines joined with a newline between each two.
pub open spec fn join_lines(items: Seq<Seq<char>>) -> Seq<char>
    decreases items.len(),
{
    if items.len() == 0 {
        Seq::empty()
    } else if items.len() == 1 {
        items[0]
    } else {
        join_lines(items.drop_last()) + seq!['\n'] + items.last()
    }
}

/// The text of each already rendered argument.
pub open spec fn rendered_lines(rendered: Seq<String>) -> Seq<Seq<char>> {
    rendered.map_values(|r: String| r@)
}

/// The debug rendering of each argument.
pub open spec fn debug_lines(args: Seq<&str>) -> Seq<Seq<char>> {
    args.map_values(|a: &str| debug_repr(a@))
}

/// The rule that opens and closes an entry.
pub const LINE: &'static str = "==================================================";

/// The rule between the heading and the arguments.
pub const SMALL_LINE: &'static str = "--------------------------------------------------";

/// An entry: the rule, `[level] title`, then, when there is content, the small rule
/// and the content, and the closing rule, each on a line of its own.
pub open spec fn entry_text(level: Seq<char>, title: Seq<char>, content: Seq<char>) -> Seq<char> {
    let heading = LINE@ + seq!['\n', '['] + level + seq![']', ' '] + title + seq!['\n'];
    if content.len() == 0 {
        heading + LINE@
    } else {
        heading + SMALL_LINE@ + seq!['\n'] + content + seq!['\n'] + LINE@
    }
}

/// The entry that a level and title log for the given arguments.
pub open spec fn log_entry(level: Seq<char>, title: Seq<char>, args: Seq<&str>) -> Seq<char> {
    entry_text(level, title, join_lines(debug_lines(args)))
}

/// Builds the log entries that the application prints.
pub struct Logger;

impl Logger {
    /// The debug rendering of each argument, one per line.
    pub fn format_args(args: &[&str]) -> (r: String)
        ensures
            r@ == join_lines(debug_lines(args@)),
            forall|i: int| 0 <= i < args@.len() ==> quoted_one_line(#[trigger] debug_repr(args@[i]@)),
            args@.len() > 0 ==> count_newlines(r@) == args@.len() - 1,
            args@.len() > 0 ==> r@.len() > 0,
    {
        let mut res = String::new();
        let n = args.len();
        let mut i: usize = 0;
        proof {
            reveal_strlit("\n");
        }
        while i < n
            invariant
                n == args@.len(),
                i <= n,
                res@ == join_lines(debug_lines(args@.take(i as int))),
                "\n"@ == seq!['\n'],
                forall|j: int| 0 <= j < i ==> quoted_one_line(#[trigger] debug_repr(args@[j]@)),
            decreases n - i,
        {
            let d = debug_string(args[i]);
            if i != 0 {
                res.append("\n");
            }
            res.append(d.as_str());
            proof {
                let prefix = debug_lines(args@.take(i + 1));
                assert(prefix.drop_last() =~= debug_lines(args@.take(i as int)));
                assert(prefix.last() == debug_repr(args@[i as int]@));
            }
            i = i + 1;
        }
        assert(args@.take(n as int) =~= args@);
        if n > 0 {
            proof {
                lemma_one_line_per_arg(args@);
                lemma_join_not_empty(debug_lines(args@));
            }
        }
        res
    }

    /// The arguments, each already rendered by the caller (with `{:?}`, for a value of
    /// any type), one per line.
    pub fn format_rendered(rendered: &[String]) -> (r: String)
        ensures
            r@ == join_lines(rendered_lines(rendered@)),
    {
        let mut res = String::new();
        let n = rendered.len();
        let mut i: usize = 0;
        proof {
            reveal_strlit("\n");
        }
        while i < n
            invariant
                n == rendered@.len(),
                i <= n,
                res@ == join_lines(rendered_lines(rendered@.take(i as int))),
                "\n"@ == seq!['\n'],
            decreases n - i,
        {
            if i != 0 {
                res.append("\n");
            }
            res.append(rendered[i].as_str());
            proof {
                let prefix = rendered_lines(rendered@.take(i + 1));
                assert(prefix.drop_last() =~= rendered_lines(rendered@.take(i as int)));
                assert(prefix.last() == rendered@[i as int]@);
            }
            i = i + 1;
        }
        assert(rendered@.take(n as int) =~= rendered@);
        res
    }

    /// The entry at `level` for `title` and arguments already rendered by the caller.
    pub fn entry(level: &str, title: &str, rendered: &[String]) -> (r: String)
        ensures
            r@ == entry_text(level@, title@, join_lines(rendered_lines(rendered@))),
    {
        let content = Self::format_rendered(rendered);
        Self::render(level, title, content.as_str())
    }

    /// The entry for `level`, `title` and the already joined `content`.
    pub fn render(level: &str, title: &str, content: &str) -> (r: String)
        ensures
            r@ == entry_text(level@, title@, content@),
    {
        proof {
            reveal_strlit("\n[");
            reveal_strlit("] ");
            reveal_strlit("\n");
        }
        let mut log = String::from_str(LINE);
        log.append("\n[");
        log.append(level);
        log.append("] ");
        log.append(title);
        log.append("\n");
        if content.is_empty() {
            log.append(LINE);
        } else {
            log.append(SMALL_LINE);
            log.append("\n");
            log.append(content);
            log.append("\n");
            log.append(LINE);
        }
        log
    }

    /// The entry at level `INFO` for `title` and `args`.
    pub fn info(title: &str, args: &[&str]) -> (r: String)
        ensures
            r@ == log_entry("INFO"@, title@, args@),
            forall|i: int| 0 <= i < args@.len() ==> quoted_one_line(#[trigger] debug_repr(args@[i]@)),
            args@.len() > 0 ==> join_lines(debug_lines(args@)).len() > 0,
    {
        let content = Self::format_args(args);
        Self::render("INFO", title, content.as_str())
    }

    /// The entry at level `ERROR` for `title` and `args`.
    pub fn error(title: &str, args: &[&str]) -> (r: String)
        ensures
            r@ == log_entry("ERROR"@, title@, args@),
            forall|i: int| 0 <= i < args@.len() ==> quoted_one_line(#[trigger] debug_repr(args@[i]@)),
            args@.len() > 0 ==> join_lines(debug_lines(args@)).len() > 0,
    {
        let content = Self::format_args(args);
        Self::render("ERROR", title, content.as_str())
    }

    /// The entry at level `SUCCESS` for `title` and `args`.
    pub fn success(title: &str, args: &[&str]) -> (r: String)
        ensures
            r@ == log_entry("SUCCESS"@, title@, args@),
            forall|i: int| 0 <= i < args@.len() ==> quoted_one_line(#[trigger] debug_repr(args@[i]@)),
            args@.len() > 0 ==> join_lines(debug_lines(args@)).len() > 0,
    {
        let content = Self::format_args(args);
        Self::render("SUCCESS", title, content.as_str())
    }
}

/// No arguments give no content, and an entry without content has no small rule:
/// it is the rule, the heading line and the closing rule.
pub proof fn lemma_no_args_short_entry(level: Seq<char>, title: Seq<char>, args: Seq<&str>)
    requires
        args.len() == 0,
    ensures
        log_entry(level, title, args) == LINE@ + seq!['\n', '['] + level + seq![']', ' ']
            + title + seq!['\n'] + LINE@,
{
}

/// When no rendering holds a line break, the joined content holds exactly one fewer
/// newline than there are arguments.
pub proof fn lemma_one_line_per_arg(args: Seq<&str>)
    requires
        args.len() > 0,
        forall|i: int| 0 <= i < args.len() ==> quoted_one_line(#[trigger] debug_repr(args[i]@)),
    ensures
        count_newlines(join_lines(debug_lines(args))) == args.len() - 1,
    decreases args.len(),
{
    let lines = debug_lines(args);
    if args.len() == 1 {
        lemma_no_newline_count(lines[0]);
    } else {
        let rest = args.drop_last();
        assert(debug_lines(rest) =~= lines.drop_last());
        assert forall|i: int| 0 <= i < rest.len() implies quoted_one_line(#[trigger] debug_repr(rest[i]@)) by {
            assert(rest[i] == args[i]);
        }
        lemma_one_line_per_arg(rest);
        assert(lines.last() == debug_repr(args[args.len() - 1]@));
        lemma_no_newline_count(lines.last());
        lemma_count_newlines_concat(join_lines(lines.drop_last()), seq!['\n']);
        lemma_count_newlines_concat(join_lines(lines.drop_last()) + seq!['\n'], lines.last());
        assert(count_newlines(seq!['\n']) == 1) by {
            let one = seq!['\n'];
            assert(one.drop_last() =~= Seq::<char>::empty());
            assert(count_newlines(one.drop_last()) == 0);
        }
    }
}

/// Joined lines are never shorter than the last line.
proof fn lemma_join_not_empty(items: Seq<Seq<char>>)
    requires
        items.len() > 0,
        items.last().len() > 0,
    ensures
        join_lines(items).len() > 0,
{
}

/// How many newline characters the text holds.
pub open spec fn count_newlines(s: Seq<char>) -> nat
    decreases s.len(),
{
    if s.len() == 0 {
        0
    } else {
        count_newlines(s.drop_last()) + if s.last() == '\n' { 1nat } else { 0nat }
    }
}

proof fn lemma_no_newline_count(s: Seq<char>)
    requires
        !s.contains('\n'),
    ensures
        count_newlines(s) == 0,
    decreases s.len(),
{
    if s.len() > 0 {
        assert(s.last() == s[s.len() - 1]);
        assert forall|i: int| 0 <= i < s.drop_last().len() implies s.drop_last()[i] != '\n' by {
            assert(s.drop_last()[i] == s[i]);
        }
        lemma_no_newline_count(s.drop_last());
    }
}

proof fn lemma_count_newlines_concat(a: Seq<char>, b: Seq<char>)
    ensures
        count_newlines(a + b) == count_newlines(a) + count_newlines(b),
    decreases b.len(),
{
    if b.len() == 0 {
        assert(a + b =~= a);
    } else {
        assert((a + b).drop_last() =~= a + b.drop_last());
        lemma_count_newlines_concat(a, b.drop_last());
    }
}

} // verus!
