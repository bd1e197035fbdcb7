//! Cleaning raw model output and wrapping it as a user-turn template fragment.
use vstd::prelude::*;

verus! {

/// The characters trimmed from both ends of a prompt: those of Unicode's
/// White_Space property, the set of `char::is_whitespace`.
pub open spec fn is_blank(c: char) -> bool {
    ('\u{9}' <= c && c <= '\u{d}') || c == '\u{20}' || c == '\u{85}' || c == '\u{a0}'
        || c == '\u{1680}' || ('\u{2000}' <= c && c <= '\u{200a}') || c == '\u{2028}'
        || c == '\u{2029}' || c == '\u{202f}' || c == '\u{205f}' || c == '\u{3000}'
}

/// The characters that make up template delimiters.
pub open spec fn is_brace(c: char) -> bool {
    c == '{' || c == '}'
}

/// `s` without its leading blanks.
pub open spec fn trim_start(s: Seq<char>) -> Seq<char>
    decreases s.len(),
{
    if s.len() > 0 && is_blank(s[0]) {
        trim_start(s.drop_first())
    } else {
        s
    }
}

/// `s` without its trailing blanks.
pub open spec fn trim_end(s: Seq<char>) -> Seq<char>
    decreases s.len(),
{
    if s.len() > 0 && is_blank(s.last()) {
        trim_end(s.drop_last())
    } else {
        s
    }
}

/// `s` without blanks at either end.
pub open spec fn trim(s: Seq<char>) -> Seq<char> {
    trim_end(trim_start(s))
}

/// `s` with every run of equal braces shortened to a single brace, so that no
/// `{{` or `}}` is left to open or close a template directive.
pub open spec fn collapse_braces(s: Seq<char>) -> Seq<char>
    decreases s.len(),
{
    if s.len() == 0 {
        s
    } else {
        let c = s.last();
        let rest = collapse_braces(s.drop_last());
        if s.len() >= 2 && is_brace(c) && s[s.len() - 2] == c {
            rest
        } else {
            rest.push(c)
        }
    }
}

/// The cleaned prompt: trimmed, and in user mode with its braces collapsed.
pub open spec fn cleaned(s: Seq<char>, user: bool) -> Seq<char> {
    if user {
        collapse_braces(trim(s))
    } else {
        trim(s)
    }
}

/// No two neighbouring characters of `s` form a `{{` or a `}}`.
pub open spec fn no_double_braces(s: Seq<char>) -> bool {
    forall|i: int| 0 <= i < s.len() - 1 ==> !(is_brace(#[trigger] s[i]) && s[i] == s[i + 1])
}

/// The text of a user-turn fragment for the raw output `s`.
pub open spec fn user_fragment(s: Seq<char>) -> Seq<char> {
    "{{#user}}"@ + cleaned(s, true) + "{{/user}}"@
}

proof fn lemma_collapse_keeps_last(s: Seq<char>)
    ensures
        collapse_braces(s).len() == 0 <==> s.len() == 0,
        s.len() > 0 ==> collapse_braces(s).last() == s.last(),
    decreases s.len(),
{
    if s.len() > 0 {
        lemma_collapse_keeps_last(s.drop_last());
    }
}

/// Collapsing braces leaves no `{{` and no `}}` behind.
pub proof fn lemma_collapsed_has_no_double_braces(s: Seq<char>)
    ensures
        no_double_braces(collapse_braces(s)),
    decreases s.len(),
{
    if s.len() > 0 {
        let rest = s.drop_last();
        lemma_collapsed_has_no_double_braces(rest);
        lemma_collapse_keeps_last(rest);
        let r = collapse_braces(s);
        let p = collapse_braces(rest);
        if !(s.len() >= 2 && is_brace(s.last()) && s[s.len() - 2] == s.last()) {
            assert forall|i: int| 0 <= i < r.len() - 1 implies !(is_brace(#[trigger] r[i]) && r[i]
                == r[i + 1]) by {
                if i < p.len() - 1 {
                    assert(r[i] == p[i] && r[i + 1] == p[i + 1]);
                } else {
                    assert(r[i] == p.last());
                    assert(rest.last() == s[s.len() - 2]);
                }
            }
        }
    }
}

/// Removes the blanks at both ends of `text`; in user mode also collapses each
/// run of equal braces to a single one, so that the text cannot open or close
/// a template directive.
pub fn clean_prompt(text: &str, user: bool) -> (r: String)
    ensures
        r@ == cleaned(text@, user),
{
    let n = text.unicode_len();
    let mut lo: usize = 0;
    assert(text@.subrange(0, n as int) =~= text@);
    while lo < n && is_blank_char(text.get_char(lo))
        invariant
            n == text@.len(),
            lo <= n,
            trim_start(text@) == trim_start(text@.subrange(lo as int, n as int)),
        decreases n - lo,
    {
        assert(text@.subrange(lo as int, n as int).drop_first() =~= text@.subrange(
            lo + 1,
            n as int,
        ));
        lo = lo + 1;
    }
    assert(trim_start(text@.subrange(lo as int, n as int)) == text@.subrange(lo as int, n as int));
    let mut hi: usize = n;
    while hi > lo && is_blank_char(text.get_char(hi - 1))
        invariant
            n == text@.len(),
            lo <= hi <= n,
            trim(text@) == trim_end(text@.subrange(lo as int, hi as int)),
        decreases hi,
    {
        assert(text@.subrange(lo as int, hi as int).drop_last() =~= text@.subrange(
            lo as int,
            hi - 1,
        ));
        hi = hi - 1;
    }
    assert(trim(text@) == text@.subrange(lo as int, hi as int));
    let mut out = String::new();
    if !user {
        out.append(text.substring_char(lo, hi));
        return out;
    }
    let mut seg: usize = lo;
    let mut i: usize = lo;
    let mut prev: char = ' ';
    while i < hi
        invariant
            n == text@.len(),
            lo <= seg <= i <= hi <= n,
            trim(text@) == text@.subrange(lo as int, hi as int),
            i > lo ==> prev == text@[i - 1],
            out@ + text@.subrange(seg as int, i as int) == collapse_braces(
                text@.subrange(lo as int, i as int),
            ),
        decreases hi - i,
    {
        let c = text.get_char(i);
        let t = Ghost(text@.subrange(lo as int, i + 1));
        assert(t@.drop_last() =~= text@.subrange(lo as int, i as int));
        if i > lo && is_brace_char(c) && prev == c {
            out.append(text.substring_char(seg, i));
            seg = i + 1;
            assert(text@.subrange(seg as int, i + 1) =~= Seq::<char>::empty());
        } else {
            assert(text@.subrange(seg as int, i + 1) =~= text@.subrange(seg as int, i as int).push(
                c,
            ));
        }
        prev = c;
        i = i + 1;
    }
    out.append(text.substring_char(seg, hi));
    out
}

fn is_blank_char(c: char) -> (r: bool)
    ensures
        r == is_blank(c),
{
    ('\u{9}' <= c && c <= '\u{d}') || c == '\u{20}' || c == '\u{85}' || c == '\u{a0}'
        || c == '\u{1680}' || ('\u{2000}' <= c && c <= '\u{200a}') || c == '\u{2028}'
        || c == '\u{2029}' || c == '\u{202f}' || c == '\u{205f}' || c == '\u{3000}'
}

fn is_brace_char(c: char) -> (r: bool)
    ensures
        r == is_brace(c),
{
    c == '{' || c == '}'
}

/// Wraps the cleaned `prompt` between a `{{#user}}` and a `{{/user}}` tag,
/// ready to be appended to another template.
pub fn format_prompt_as_user(prompt: &str) -> (r: String)
    ensures
        r@ == user_fragment(prompt@),
{
    let mut r = String::from_str("{{#user}}");
    let body = clean_prompt(prompt, true);
    r.append(body.as_str());
    r.append("{{/user}}");
    r
}

} // verus!
