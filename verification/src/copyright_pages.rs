use vstd::prelude::*;
use vstd::std_specs::iter::IteratorSpec;
use vstd::string::{axiom_spec_iter, next_postcondition};
use crate::resolution::{is_white_space, trimmed, lemma_trimmed_bounds};

verus! {

/// A character that separates pages: a space or a line break.
pub open spec fn is_page_separator(c: char) -> bool {
    c == ' ' || c == '\n' || c == '\r'
}

/// The first position at or after `from` that holds no page separator (the
/// length of the text when there is none).
pub open spec fn page_start_spec(text: Seq<char>, from: int) -> int
    decreases text.len() - from,
{
    if from >= text.len() {
        text.len() as int
    } else if is_page_separator(text[from]) {
        page_start_spec(text, from + 1)
    } else {
        from
    }
}

/// Where the line that starts at `p` ends: just after its `'\n'`, or at the
/// end of the text.
pub open spec fn line_end_spec(text: Seq<char>, p: int) -> int
    decreases text.len() - p,
{
    if p >= text.len() {
        text.len() as int
    } else if text[p] == '\n' {
        p + 1
    } else {
        line_end_spec(text, p + 1)
    }
}

/// The text at `p` starts with `pattern`.
pub open spec fn starts_with_at(text: Seq<char>, p: int, pattern: Seq<char>) -> bool {
    p + pattern.len() <= text.len() && text.subrange(p, p + pattern.len()) == pattern
}

/// A line that starts inside the text ends after its start and no later than
/// the end of the text.
pub proof fn lemma_line_end_after(text: Seq<char>, p: int)
    requires
        0 <= p < text.len(),
    ensures
        p < line_end_spec(text, p) <= text.len(),
    decreases text.len() - p,
{
    if text[p] != '\n' {
        if p + 1 < text.len() {
            lemma_line_end_after(text, p + 1);
        } else {
            assert(line_end_spec(text, p + 1) == text.len());
        }
    }
}

/// Where a page that takes lines from `p` on ends, `k` lines being on it
/// already, when `fitting` lines fit on a page: it ends before a line that
/// does not fit, at the end of the text, before a heading ("###") that is not
/// its first line, and after a divider ("---") that is not its first line.
pub open spec fn page_walk(text: Seq<char>, p: int, k: int, fitting: int) -> int
    decreases text.len() - p,
{
    if p < 0 || p >= text.len() || k >= fitting || (k > 0 && starts_with_at(text, p, "###"@)) {
        p
    } else if k > 0 && starts_with_at(text, p, "---"@) {
        line_end_spec(text, p)
    } else {
        proof {
            lemma_line_end_after(text, p);
        }
        page_walk(text, line_end_spec(text, p), k + 1, fitting)
    }
}

/// Where the page that starts at `start` ends, when `fitting` lines measured
/// from `start` fit on it.
pub open spec fn page_end_spec(text: Seq<char>, start: int, fitting: int) -> int {
    page_walk(text, start, 0, fitting)
}

/// The characters of `text`, in order.
pub(crate) fn chars_of(text: &str) -> (r: Vec<char>)
    ensures
        r@ == text@,
{
    broadcast use axiom_spec_iter, next_postcondition;

    let mut out: Vec<char> = Vec::new();
    for c in iter: text.chars()
        invariant
            iter.seq() == text@,
            out@ == iter.seq().take(iter.index() as int),
    {
        assert(iter.seq().take(iter.index() as int + 1) =~= out@.push(c));
        out.push(c);
    }
    assert(out@ =~= text@);
    out
}

/// The first position at or after `from` that is not a space, `'\n'` or
/// `'\r'`: where the next page of the text starts.
pub fn copyright_page_start(text: &str, from: usize) -> (r: usize)
    ensures
        r == page_start_spec(text@, from as int),
{
    let chars = chars_of(text);
    let mut p = from;
    while p < chars.len() && (chars[p] == ' ' || chars[p] == '\n' || chars[p] == '\r')
        invariant
            chars@ == text@,
            from <= p,
            page_start_spec(text@, from as int) == page_start_spec(text@, p as int),
        decreases chars@.len() - p,
    {
        p = p + 1;
    }
    if p >= chars.len() {
        chars.len()
    } else {
        p
    }
}

/// Where the line of `text` that starts at `p` ends: just after its `'\n'`,
/// or at the end of the text.
pub fn copyright_line_end(text: &str, p: usize) -> (r: usize)
    requires
        p < text@.len(),
    ensures
        r == line_end_spec(text@, p as int),
        p < r <= text@.len(),
{
    proof {
        lemma_line_end_after(text@, p as int);
    }
    let chars = chars_of(text);
    line_end(&chars, p)
}

/// Whether a page that ends at `end` is the last of `text`: it reaches the
/// end of the text.
pub fn copyright_page_is_last(text: &str, end: usize) -> (r: bool)
    ensures
        r == (end == text@.len()),
{
    let chars = chars_of(text);
    end == chars.len()
}

fn line_end(chars: &Vec<char>, p: usize) -> (r: usize)
    requires
        p < chars@.len(),
    ensures
        r == line_end_spec(chars@, p as int),
{
    let mut q = p;
    while q < chars.len() && chars[q] != '\n'
        invariant
            p <= q <= chars@.len(),
            line_end_spec(chars@, p as int) == line_end_spec(chars@, q as int),
        decreases chars@.len() - q,
    {
        q = q + 1;
    }
    if q < chars.len() {
        q + 1
    } else {
        q
    }
}

fn starts_with_three(chars: &Vec<char>, p: usize, c: char) -> (r: bool)
    requires
        p <= chars@.len(),
    ensures
        r == starts_with_at(chars@, p as int, seq![c, c, c]),
{
    let r = p < chars.len() && chars.len() - p >= 3 && chars[p] == c && chars[p + 1] == c && chars[p + 2] == c;
    proof {
        if p + 3 <= chars@.len() {
            assert(r == (chars@.subrange(p as int, p + 3) =~= seq![c, c, c]));
        }
    }
    r
}

/// Where the page that starts at `start` ends, given that `fitting_lines`
/// lines measured one after the other from `start` fit on a page: after at
/// most that many lines, before a heading line ("###") that is not the first
/// on the page, after a divider line ("---") that is not the first, and at
/// the end of the text.
pub fn copyright_page_end(text: &str, start: usize, fitting_lines: usize) -> (r: usize)
    requires
        start < text@.len(),
        fitting_lines >= 1,
    ensures
        r == page_end_spec(text@, start as int, fitting_lines as int),
        start < r <= text@.len(),
{
    proof {
        reveal_strlit("###");
        reveal_strlit("---");
        assert("###"@ =~= seq!['#', '#', '#']);
        assert("---"@ =~= seq!['-', '-', '-']);
    }
    let chars = chars_of(text);
    let mut p = start;
    let mut k: usize = 0;
    loop
        invariant
            chars@ == text@,
            "###"@ == seq!['#', '#', '#'],
            "---"@ == seq!['-', '-', '-'],
            start <= p <= chars@.len(),
            k <= fitting_lines,
            fitting_lines >= 1,
            k == 0 ==> p == start,
            k > 0 ==> start < p,
            start < chars@.len(),
            page_end_spec(text@, start as int, fitting_lines as int) == page_walk(
                text@,
                p as int,
                k as int,
                fitting_lines as int,
            ),
        decreases chars@.len() - p,
    {
        if p >= chars.len() || k >= fitting_lines || (k > 0 && starts_with_three(&chars, p, '#')) {
            return p;
        }
        let end = line_end(&chars, p);
        proof {
            lemma_line_end_after(text@, p as int);
        }
        if k > 0 && starts_with_three(&chars, p, '-') {
            return end;
        }
        p = end;
        k = k + 1;
    }
}

/// Whether the characters `[start, end)` of `text` are all white space, so
/// that a page made of them would be blank.
pub fn copyright_page_is_blank(text: &str, start: usize, end: usize) -> (r: bool)
    requires
        start <= end <= text@.len(),
    ensures
        r == (trimmed(text@.subrange(start as int, end as int)).len() == 0),
{
    let chars = chars_of(text);
    let ghost s = text@.subrange(start as int, end as int);
    let mut i = start;
    while i < end
        invariant
            chars@ == text@,
            start <= i <= end <= chars@.len(),
            s == text@.subrange(start as int, end as int),
            forall|j: int| 0 <= j < i - start ==> is_white_space(#[trigger] s[j]),
        decreases end - i,
    {
        if !white_space_char(chars[i]) {
            proof {
                let lo = (i - start) as int;
                assert(!is_white_space(s[lo]));
                let h = lemma_last_non_white(s, lo, s.len() as int);
                lemma_trimmed_bounds(s, lo, h);
                assert(s.subrange(lo, h).len() > 0);
            }
            return false;
        }
        i = i + 1;
    }
    proof {
        lemma_trimmed_bounds(s, s.len() as int, s.len() as int);
    }
    true
}

/// One past the last character of `s` that is not white space, looking back
/// from `h`; the character at `lo` is not white space.
proof fn lemma_last_non_white(s: Seq<char>, lo: int, h: int) -> (r: int)
    requires
        0 <= lo < h <= s.len(),
        !is_white_space(s[lo]),
        forall|j: int| h <= j < s.len() ==> is_white_space(#[trigger] s[j]),
    ensures
        lo < r <= s.len(),
        !is_white_space(s[r - 1]),
        forall|j: int| r <= j < s.len() ==> is_white_space(#[trigger] s[j]),
    decreases h,
{
    if !is_white_space(s[h - 1]) {
        h
    } else {
        lemma_last_non_white(s, lo, h - 1)
    }
}

fn white_space_char(c: char) -> (r: bool)
    ensures
        r == is_white_space(c),
{
    ('\u{9}' <= c && c <= '\u{d}') || c == ' ' || c == '\u{85}' || c == '\u{a0}' || c
        == '\u{1680}' || ('\u{2000}' <= c && c <= '\u{200a}') || c == '\u{2028}' || c
        == '\u{2029}' || c == '\u{202f}' || c == '\u{205f}' || c == '\u{3000}'
}

} // verus!
