//! White space handling of selected text.
use vstd::prelude::*;

verus! {

/// True when `c` has the Unicode `White_Space` property, which `char::is_whitespace`
/// and `str::trim` go by: tab to carriage return, space, next line, no-break space,
/// ogham space mark, the spaces from en quad to hair space, the line and paragraph
/// separators, narrow no-break space, medium mathematical space and ideographic space.
pub open spec fn is_white_space(c: char) -> bool {
    let u = c as u32;
    ||| 0x09 <= u <= 0x0D
    ||| u == 0x20
    ||| u == 0x85
    ||| u == 0xA0
    ||| u == 0x1680
    ||| 0x2000 <= u <= 0x200A
    ||| u == 0x2028
    ||| u == 0x2029
    ||| u == 0x202F
    ||| u == 0x205F
    ||| u == 0x3000
}

/// Whether `c` is white space.
pub fn char_is_whitespace(c: char) -> (r: bool)
    ensures
        r == is_white_space(c),
{
    let u = c as u32;
    (0x09 <= u && u <= 0x0D) || u == 0x20 || u == 0x85 || u == 0xA0 || u == 0x1680 || (0x2000
        <= u && u <= 0x200A) || u == 0x2028 || u == 0x2029 || u == 0x202F || u == 0x205F || u
        == 0x3000
}

/// Whether the text holds at least one character that is not white space.
pub open spec fn has_content(s: Seq<char>) -> bool {
    exists|i: int| 0 <= i < s.len() && !is_white_space(#[trigger] s[i])
}

/// The text with its leading white space removed.
pub open spec fn trim_start(s: Seq<char>) -> Seq<char>
    decreases s.len(),
{
    if s.len() > 0 && is_white_space(s[0]) {
        trim_start(s.drop_first())
    } else {
        s
    }
}

/// The text with its trailing white space removed.
pub open spec fn trim_end(s: Seq<char>) -> Seq<char>
    decreases s.len(),
{
    if s.len() > 0 && is_white_space(s.last()) {
        trim_end(s.drop_last())
    } else {
        s
    }
}

/// The text with white space removed at both ends, as `str::trim` gives it.
pub open spec fn trimmed(s: Seq<char>) -> Seq<char> {
    trim_end(trim_start(s))
}

proof fn lemma_trim_start_keeps_non_space(s: Seq<char>)
    ensures
        s.len() > 0 && !is_white_space(s[0]) ==> trim_start(s) == s,
        s.len() == 0 ==> trim_start(s) == s,
{
}

proof fn lemma_trim_end_keeps_non_space(s: Seq<char>)
    ensures
        s.len() > 0 && !is_white_space(s.last()) ==> trim_end(s) == s,
        s.len() == 0 ==> trim_end(s) == s,
{
}

/// Removing white space at the ends leaves nothing exactly when no character is
/// anything but white space.
pub proof fn lemma_trim_empty_iff_blank(s: Seq<char>)
    ensures
        (trimmed(s).len() == 0) <==> !has_content(s),
    decreases s.len(),
{
    lemma_trim_start_content(s);
    lemma_trim_end_content(trim_start(s));
}

proof fn lemma_trim_start_content(s: Seq<char>)
    ensures
        has_content(trim_start(s)) <==> has_content(s),
        trim_start(s).len() > 0 ==> !is_white_space(trim_start(s)[0]),
    decreases s.len(),
{
    if s.len() > 0 && is_white_space(s[0]) {
        let t = s.drop_first();
        lemma_trim_start_content(t);
        if has_content(s) {
            let i = choose|i: int| 0 <= i < s.len() && !is_white_space(#[trigger] s[i]);
            assert(i > 0);
            assert(t[i - 1] == s[i]);
        }
        if has_content(t) {
            let i = choose|i: int| 0 <= i < t.len() && !is_white_space(#[trigger] t[i]);
            assert(s[i + 1] == t[i]);
        }
    }
}

proof fn lemma_trim_end_content(s: Seq<char>)
    ensures
        has_content(trim_end(s)) <==> has_content(s),
        trim_end(s).len() > 0 ==> !is_white_space(trim_end(s).last()),
        (trim_end(s).len() == 0) <==> !has_content(s) || s.len() == 0,
    decreases s.len(),
{
    if s.len() > 0 && is_white_space(s.last()) {
        let t = s.drop_last();
        lemma_trim_end_content(t);
        if has_content(s) {
            let i = choose|i: int| 0 <= i < s.len() && !is_white_space(#[trigger] s[i]);
            assert(i < s.len() - 1);
            assert(t[i] == s[i]);
        }
        if has_content(t) {
            let i = choose|i: int| 0 <= i < t.len() && !is_white_space(#[trigger] t[i]);
            assert(s[i] == t[i]);
        }
    } else if s.len() > 0 {
        assert(!is_white_space(s[s.len() - 1]));
    }
}

proof fn lemma_trim_start_shape(s: Seq<char>) -> (a: int)
    ensures
        0 <= a <= s.len(),
        trim_start(s) == s.subrange(a, s.len() as int),
        forall|i: int| 0 <= i < a ==> is_white_space(#[trigger] s[i]),
        a < s.len() ==> !is_white_space(s[a]),
    decreases s.len(),
{
    if s.len() > 0 && is_white_space(s[0]) {
        let t = s.drop_first();
        let a1 = lemma_trim_start_shape(t);
        assert(t.subrange(a1, t.len() as int) =~= s.subrange(a1 + 1, s.len() as int));
        assert forall|i: int| 0 <= i < a1 + 1 implies is_white_space(#[trigger] s[i]) by {
            if i > 0 {
                assert(s[i] == t[i - 1]);
            }
        }
        if a1 < t.len() {
            assert(s[a1 + 1] == t[a1]);
        }
        a1 + 1
    } else {
        assert(s.subrange(0, s.len() as int) =~= s);
        0
    }
}

proof fn lemma_trim_end_shape(s: Seq<char>) -> (b: int)
    ensures
        0 <= b <= s.len(),
        trim_end(s) == s.subrange(0, b),
        forall|i: int| b <= i < s.len() ==> is_white_space(#[trigger] s[i]),
        b > 0 ==> !is_white_space(s[b - 1]),
    decreases s.len(),
{
    if s.len() > 0 && is_white_space(s.last()) {
        let t = s.drop_last();
        let b1 = lemma_trim_end_shape(t);
        assert(t.subrange(0, b1) =~= s.subrange(0, b1));
        assert forall|i: int| b1 <= i < s.len() implies is_white_space(#[trigger] s[i]) by {
            if i < s.len() - 1 {
                assert(s[i] == t[i]);
            }
        }
        if b1 > 0 {
            assert(s[b1 - 1] == t[b1 - 1]);
        }
        b1
    } else {
        assert(s.subrange(0, s.len() as int) =~= s);
        s.len() as int
    }
}

/// Trimming keeps one whole run of the text, from its first character that is not
/// white space to its last, and drops only white space before and after it: nothing
/// inside is cut, whatever the length.
pub proof fn lemma_trim_keeps_whole_middle(s: Seq<char>)
    ensures
        exists|a: int, b: int|
            #![trigger s.subrange(a, b)]
            0 <= a <= b <= s.len() && trimmed(s) == s.subrange(a, b) && (forall|i: int|
                (0 <= i < a || b <= i < s.len()) ==> is_white_space(#[trigger] s[i])) && (a < b
                ==> !is_white_space(s[a]) && !is_white_space(s[b - 1])),
{
    let (a, b) = lemma_trimmed_shape(s);
    assert(trimmed(s) == s.subrange(a, b));
}

proof fn lemma_trimmed_shape(s: Seq<char>) -> (ab: (int, int))
    ensures
        0 <= ab.0 <= ab.1 <= s.len(),
        trimmed(s) == s.subrange(ab.0, ab.1),
        forall|i: int| (0 <= i < ab.0 || ab.1 <= i < s.len()) ==> is_white_space(#[trigger] s[i]),
        ab.0 < ab.1 ==> !is_white_space(s[ab.0]) && !is_white_space(s[ab.1 - 1]),
{
    let a = lemma_trim_start_shape(s);
    let t = s.subrange(a, s.len() as int);
    let b1 = lemma_trim_end_shape(t);
    assert(t.subrange(0, b1) =~= s.subrange(a, a + b1));
    if a < s.len() {
        assert(t[0] == s[a]);
        if b1 == 0 {
            assert(is_white_space(t[0]));
        }
        assert(t[b1 - 1] == s[a + b1 - 1]);
    }
    assert forall|i: int| (0 <= i < a || a + b1 <= i < s.len()) implies is_white_space(#[trigger] s[i]) by {
        if i >= a + b1 {
            assert(t[i - a] == s[i]);
        }
    }
    (a, a + b1)
}

/// Returns true when every character of `text` is white space (also when it is empty).
pub fn is_blank(text: &str) -> (r: bool)
    ensures
        r == !has_content(text@),
{
    let n = text.unicode_len();
    let mut i: usize = 0;
    while i < n
        invariant
            n == text@.len(),
            i <= n,
            forall|j: int| 0 <= j < i ==> is_white_space(#[trigger] text@[j]),
        decreases n - i,
    {
        let c = text.get_char(i);
        if !char_is_whitespace(c) {
            return false;
        }
        i = i + 1;
    }
    true
}

/// `text` with leading and trailing white space removed.
pub fn trim(text: &str) -> (r: &str)
    ensures
        r@ == trimmed(text@),
        exists|a: int, b: int|
            #![trigger text@.subrange(a, b)]
            0 <= a <= b <= text@.len() && r@ == text@.subrange(a, b) && (forall|i: int|
                (0 <= i < a || b <= i < text@.len()) ==> is_white_space(#[trigger] text@[i])) && (a
                < b ==> !is_white_space(text@[a]) && !is_white_space(text@[b - 1])),
{
    let ghost s = text@;
    proof {
        lemma_trim_keeps_whole_middle(s);
    }
    let n = text.unicode_len();
    let mut a: usize = 0;
    assert(s.subrange(0, n as int) =~= s);
    while a < n
        invariant
            n == s.len(),
            s == text@,
            a <= n,
            trim_start(s) == trim_start(s.subrange(a as int, n as int)),
        ensures
            a <= n,
            trim_start(s) == trim_start(s.subrange(a as int, n as int)),
            a == n || !is_white_space(s[a as int]),
        decreases n - a,
    {
        let c = text.get_char(a);
        if !char_is_whitespace(c) {
            break;
        }
        assert(s.subrange(a as int, n as int).drop_first() =~= s.subrange(a + 1, n as int));
        a = a + 1;
    }
    proof {
        lemma_trim_start_keeps_non_space(s.subrange(a as int, n as int));
    }
    let mut b: usize = n;
    while b > a
        invariant
            n == s.len(),
            s == text@,
            a <= b <= n,
            trimmed(s) == trim_end(s.subrange(a as int, b as int)),
        ensures
            a <= b <= n,
            trimmed(s) == trim_end(s.subrange(a as int, b as int)),
            b == a || !is_white_space(s[b - 1]),
        decreases b - a,
    {
        let c = text.get_char(b - 1);
        if !char_is_whitespace(c) {
            break;
        }
        assert(s.subrange(a as int, b as int).drop_last() =~= s.subrange(a as int, b - 1));
        b = b - 1;
    }
    proof {
        lemma_trim_end_keeps_non_space(s.subrange(a as int, b as int));
    }
    text.substring_char(a, b)
}

} // verus!
