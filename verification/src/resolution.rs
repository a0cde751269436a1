use vstd::prelude::*;
use vstd::string::StrSliceExecFns;

verus! {

/// The smallest width or height that a custom resolution may have.
pub const MIN_CUSTOM_DIMENSION: u32 = 64;

/// The largest width or height that a custom resolution may have.
pub const MAX_CUSTOM_DIMENSION: u32 = 16384;

/// The characters with the Unicode property White_Space.
pub open spec fn is_white_space(c: char) -> bool {
    ||| '\u{9}' <= c <= '\u{d}'
    ||| c == ' '
    ||| c == '\u{85}'
    ||| c == '\u{a0}'
    ||| c == '\u{1680}'
    ||| '\u{2000}' <= c <= '\u{200a}'
    ||| c == '\u{2028}'
    ||| c == '\u{2029}'
    ||| c == '\u{202f}'
    ||| c == '\u{205f}'
    ||| c == '\u{3000}'
}

/// `s` without its leading white space.
pub open spec fn trim_front(s: Seq<char>) -> Seq<char>
    decreases s.len(),
{
    if s.len() > 0 && is_white_space(s[0]) {
        trim_front(s.drop_first())
    } else {
        s
    }
}

/// `s` without its trailing white space.
pub open spec fn trim_back(s: Seq<char>) -> Seq<char>
    decreases s.len(),
{
    if s.len() > 0 && is_white_space(s.last()) {
        trim_back(s.drop_last())
    } else {
        s
    }
}

/// `s` without leading and trailing white space.
pub open spec fn trimmed(s: Seq<char>) -> Seq<char> {
    trim_back(trim_front(s))
}

/// An ASCII decimal digit.
pub open spec fn is_digit(c: char) -> bool {
    '0' <= c <= '9'
}

/// The number that a string of decimal digits denotes.
pub open spec fn digits_value(d: Seq<char>) -> nat
    decreases d.len(),
{
    if d.len() == 0 {
        0
    } else {
        digits_value(d.drop_last()) * 10 + (d.last() as nat - '0' as nat) as nat
    }
}

/// The digits of an unsigned number written with an optional leading '+'.
pub open spec fn unsigned_digits(s: Seq<char>) -> Seq<char> {
    if s.len() > 0 && s[0] == '+' {
        s.drop_first()
    } else {
        s
    }
}

/// What reading `s` as a `u32` gives: an optional '+' followed by at least
/// one ASCII digit, denoting a number that fits in 32 bits.
pub open spec fn parse_u32(s: Seq<char>) -> Option<u32> {
    let d = unsigned_digits(s);
    if d.len() > 0 && (forall|i: int| 0 <= i < d.len() ==> is_digit(#[trigger] d[i]))
        && digits_value(d) <= u32::MAX {
        Some(digits_value(d) as u32)
    } else {
        None
    }
}

/// What a custom resolution field holds: the number written in it, white
/// space around it ignored, when it lies from 64 to 16384.
pub open spec fn dimension_of(text: Seq<char>) -> Option<u32> {
    match parse_u32(trimmed(text)) {
        Some(v) => if MIN_CUSTOM_DIMENSION <= v <= MAX_CUSTOM_DIMENSION {
            Some(v)
        } else {
            None
        },
        None => None,
    }
}

proof fn lemma_trim_front_is_suffix(s: Seq<char>)
    ensures
        exists|k: int|
            0 <= k <= s.len() && trim_front(s) == s.subrange(k, s.len() as int) && (forall|
                j: int,
            | 0 <= j < k ==> is_white_space(#[trigger] s[j])) && (k < s.len() ==> !is_white_space(
                s[k],
            )),
    decreases s.len(),
{
    if s.len() > 0 && is_white_space(s[0]) {
        lemma_trim_front_is_suffix(s.drop_first());
        let k0 = choose|k: int|
            0 <= k <= s.drop_first().len() && trim_front(s.drop_first())
                == s.drop_first().subrange(k, s.drop_first().len() as int) && (forall|j: int|
                0 <= j < k ==> is_white_space(#[trigger] s.drop_first()[j])) && (k
                < s.drop_first().len() ==> !is_white_space(s.drop_first()[k]));
        assert(s.drop_first().subrange(k0, s.drop_first().len() as int) =~= s.subrange(
            k0 + 1,
            s.len() as int,
        ));
        assert forall|j: int| 0 <= j < k0 + 1 implies is_white_space(#[trigger] s[j]) by {
            if j > 0 {
                assert(s[j] == s.drop_first()[j - 1]);
            }
        }
        assert(k0 + 1 < s.len() ==> s[k0 + 1] == s.drop_first()[k0]);
    } else {
        assert(s =~= s.subrange(0, s.len() as int));
    }
}

proof fn lemma_trim_back_is_prefix(s: Seq<char>)
    ensures
        exists|k: int|
            0 <= k <= s.len() && trim_back(s) == s.subrange(0, k) && (forall|j: int|
                k <= j < s.len() ==> is_white_space(#[trigger] s[j])) && (k > 0
                ==> !is_white_space(s[k - 1])),
    decreases s.len(),
{
    if s.len() > 0 && is_white_space(s.last()) {
        lemma_trim_back_is_prefix(s.drop_last());
        let k0 = choose|k: int|
            0 <= k <= s.drop_last().len() && trim_back(s.drop_last()) == s.drop_last().subrange(
                0,
                k,
            ) && (forall|j: int|
                k <= j < s.drop_last().len() ==> is_white_space(#[trigger] s.drop_last()[j]))
                && (k > 0 ==> !is_white_space(s.drop_last()[k - 1]));
        assert(s.drop_last().subrange(0, k0) =~= s.subrange(0, k0));
        assert forall|j: int| k0 <= j < s.len() implies is_white_space(#[trigger] s[j]) by {
            if j < s.len() - 1 {
                assert(s[j] == s.drop_last()[j]);
            }
        }
        assert(k0 > 0 ==> s[k0 - 1] == s.drop_last()[k0 - 1]);
    } else {
        assert(s =~= s.subrange(0, s.len() as int));
    }
}

/// Trimming keeps what lies between the first and the last character that
/// is not white space.
pub(crate) proof fn lemma_trimmed_bounds(s: Seq<char>, lo: int, hi: int)
    requires
        0 <= lo <= hi <= s.len(),
        forall|j: int| 0 <= j < lo ==> is_white_space(#[trigger] s[j]),
        forall|j: int| hi <= j < s.len() ==> is_white_space(#[trigger] s[j]),
        lo < hi ==> !is_white_space(s[lo]) && !is_white_space(s[hi - 1]),
        lo == hi ==> lo == s.len(),
    ensures
        trimmed(s) == s.subrange(lo, hi),
{
    lemma_trim_front_is_suffix(s);
    let k = choose|k: int|
        0 <= k <= s.len() && trim_front(s) == s.subrange(k, s.len() as int) && (forall|j: int|
            0 <= j < k ==> is_white_space(#[trigger] s[j])) && (k < s.len() ==> !is_white_space(
            s[k],
        ));
    if k < lo {
        assert(is_white_space(s[k]));
    }
    if lo < k {
        assert(is_white_space(s[lo]));
    }
    assert(k == lo);
    let f = s.subrange(lo, s.len() as int);
    lemma_trim_back_is_prefix(f);
    let m = choose|m: int|
        0 <= m <= f.len() && trim_back(f) == f.subrange(0, m) && (forall|j: int|
            m <= j < f.len() ==> is_white_space(#[trigger] f[j])) && (m > 0 ==> !is_white_space(
            f[m - 1],
        ));
    if lo < hi {
        if m < hi - lo {
            assert(f[hi - lo - 1] == s[hi - 1]);
            assert(is_white_space(f[hi - lo - 1]));
        }
        if m > hi - lo {
            assert(f[m - 1] == s[lo + m - 1]);
            assert(is_white_space(s[lo + m - 1]));
        }
    }
    assert(m == hi - lo);
    assert(f.subrange(0, m) =~= s.subrange(lo, hi));
}

/// With every character a digit, the value of a prefix never exceeds the value
/// of a longer prefix.
proof fn lemma_digits_value_monotone(d: Seq<char>, i: int, j: int)
    requires
        0 <= i <= j <= d.len(),
    ensures
        digits_value(d.subrange(0, i)) <= digits_value(d.subrange(0, j)),
    decreases j - i,
{
    if i < j {
        lemma_digits_value_monotone(d, i, j - 1);
        assert(d.subrange(0, j).drop_last() =~= d.subrange(0, j - 1));
    }
}

/// The number written in a custom resolution field, when it lies from 64 to
/// 16384; white space around the number is ignored, and a leading '+' is
/// accepted.
pub fn parse_dimension(text: &str) -> (r: Option<u32>)
    ensures
        r == dimension_of(text@),
{
    let ghost s = text@;
    let len = text.unicode_len();
    let mut lo: usize = 0;
    while lo < len && is_white_space_char(text.get_char(lo))
        invariant
            len == s.len(),
            s == text@,
            lo <= len,
            forall|j: int| 0 <= j < lo ==> is_white_space(#[trigger] s[j]),
        decreases len - lo,
    {
        lo = lo + 1;
    }
    let mut hi: usize = len;
    while hi > lo && is_white_space_char(text.get_char(hi - 1))
        invariant
            len == s.len(),
            s == text@,
            lo <= hi <= len,
            forall|j: int| 0 <= j < lo ==> is_white_space(#[trigger] s[j]),
            forall|j: int| hi <= j < len ==> is_white_space(#[trigger] s[j]),
            lo < len ==> !is_white_space(s[lo as int]),
        decreases hi - lo,
    {
        hi = hi - 1;
    }
    let ghost t = s.subrange(lo as int, hi as int);
    proof {
        lemma_trimmed_bounds(s, lo as int, hi as int);
    }
    let mut start = lo;
    if start < hi && text.get_char(start) == '+' {
        start = start + 1;
    }
    let ghost d = unsigned_digits(t);
    assert(d =~= s.subrange(start as int, hi as int));
    if start == hi {
        return None;
    }
    let mut value: u64 = 0;
    let mut i = start;
    while i < hi
        invariant
            s == text@,
            len == s.len(),
            lo <= start < hi <= len,
            start <= i <= hi,
            d == s.subrange(start as int, hi as int),
            trimmed(s) == t,
            d == unsigned_digits(t),
            value == digits_value(d.subrange(0, i - start)),
            value <= u32::MAX,
            forall|k: int| 0 <= k < i - start ==> is_digit(#[trigger] d[k]),
        decreases hi - i,
    {
        let c = text.get_char(i);
        let ghost k = i - start;
        if !('0' <= c && c <= '9') {
            assert(!is_digit(d[k]));
            return None;
        }
        assert(d.subrange(0, k + 1).drop_last() =~= d.subrange(0, k));
        let digit = (c as u32 - '0' as u32) as u64;
        value = value * 10 + digit;
        if value > 4294967295u64 {
            proof {
                lemma_digits_value_monotone(d, k + 1, d.len() as int);
                assert(d.subrange(0, d.len() as int) =~= d);
            }
            return None;
        }
        i = i + 1;
    }
    proof {
        assert(d.subrange(0, d.len() as int) =~= d);
    }
    let v = value as u32;
    if MIN_CUSTOM_DIMENSION <= v && v <= MAX_CUSTOM_DIMENSION {
        Some(v)
    } else {
        None
    }
}

fn is_white_space_char(c: char) -> (r: bool)
    ensures
        r == is_white_space(c),
{
    ('\u{9}' <= c && c <= '\u{d}') || c == ' ' || c == '\u{85}' || c == '\u{a0}' || c
        == '\u{1680}' || ('\u{2000}' <= c && c <= '\u{200a}') || c == '\u{2028}' || c
        == '\u{2029}' || c == '\u{202f}' || c == '\u{205f}' || c == '\u{3000}'
}

} // verus!
