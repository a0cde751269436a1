use vstd::prelude::*;
use vstd::string::StrSliceExecFns;

verus! {

/// `[a, b)` is a line of `text` as `str::lines` yields it: it starts at the
/// start of the text or after a `'\n'`, runs to the next `'\n'` or the end,
/// and is not the empty remainder after a final `'\n'`.
pub open spec fn is_line_at(text: Seq<char>, a: int, b: int) -> bool {
    &&& 0 <= a < text.len()
    &&& a <= b <= text.len()
    &&& (a == 0 || text[a - 1] == '\n')
    &&& (b == text.len() || text[b] == '\n')
    &&& forall|j: int| a <= j < b ==> text[j] != '\n'
}

/// The text of the line `[a, b)`: a `'\r'` just before its `'\n'` is dropped.
pub open spec fn line_text(text: Seq<char>, a: int, b: int) -> Seq<char> {
    if b < text.len() && a < b && text[b - 1] == '\r' {
        text.subrange(a, b - 1)
    } else {
        text.subrange(a, b)
    }
}

/// One of the lines of `text` reads exactly `wanted`.
pub open spec fn has_line(text: Seq<char>, wanted: Seq<char>) -> bool {
    exists|a: int, b: int| is_line_at(text, a, b) && line_text(text, a, b) == wanted
}

/// The characters `[start, end)` of `text` equal `wanted`.
fn segment_equals(text: &str, start: usize, end: usize, wanted: &str) -> (r: bool)
    requires
        start <= end <= text@.len(),
    ensures
        r == (text@.subrange(start as int, end as int) == wanted@),
{
    let n = wanted.unicode_len();
    if end - start != n {
        return false;
    }
    let mut i: usize = 0;
    while i < n
        invariant
            n == wanted@.len(),
            end - start == n,
            start <= end <= text@.len(),
            i <= n,
            forall|j: int| 0 <= j < i ==> text@[start + j] == wanted@[j],
        decreases n - i,
    {
        if text.get_char(start + i) != wanted.get_char(i) {
            assert(text@.subrange(start as int, end as int)[i as int] != wanted@[i as int]);
            return false;
        }
        i = i + 1;
    }
    assert(text@.subrange(start as int, end as int) =~= wanted@);
    true
}

/// Whether one of the lines of `text` (as `str::lines` splits it) reads
/// exactly `wanted`.
pub fn status_has_line(text: &str, wanted: &str) -> (r: bool)
    ensures
        r == has_line(text@, wanted@),
{
    let n = text.unicode_len();
    let mut line_start: usize = 0;
    let mut i: usize = 0;
    while i < n
        invariant
            n == text@.len(),
            line_start <= i <= n,
            line_start == 0 || text@[line_start - 1] == '\n',
            forall|j: int| line_start <= j < i ==> text@[j] != '\n',
            forall|a: int, b: int|
                a < line_start && #[trigger] is_line_at(text@, a, b) ==> line_text(text@, a, b)
                    != wanted@,
        decreases n - i,
    {
        if text.get_char(i) == '\n' {
            let end = if line_start < i && text.get_char(i - 1) == '\r' {
                i - 1
            } else {
                i
            };
            assert(is_line_at(text@, line_start as int, i as int));
            if segment_equals(text, line_start, end, wanted) {
                assert(line_text(text@, line_start as int, i as int) == wanted@);
                return true;
            }
            assert forall|a: int, b: int|
                a < i + 1 && #[trigger] is_line_at(text@, a, b) implies line_text(text@, a, b)
                    != wanted@ by {
                if a >= line_start {
                    if a > line_start {
                        assert(text@[a - 1] == '\n');
                    }
                    if b < i {
                        assert(text@[b] == '\n');
                    }
                    if b > i {
                        assert(text@[i as int] == '\n');
                    }
                }
            }
            line_start = i + 1;
        }
        i = i + 1;
    }
    if line_start < n {
        assert(is_line_at(text@, line_start as int, n as int));
        if segment_equals(text, line_start, n, wanted) {
            assert(line_text(text@, line_start as int, n as int) == wanted@);
            return true;
        }
    }
    assert forall|a: int, b: int| #[trigger] is_line_at(text@, a, b) implies line_text(
        text@,
        a,
        b,
    ) != wanted@ by {
        if a >= line_start {
            if a > line_start {
                assert(text@[a - 1] == '\n');
            }
            if b < n {
                assert(text@[b] == '\n');
            }
        }
    }
    false
}

/// Whether the native side reports a camera: its status file has the line
/// `camera=1`.
pub fn camera_status_available(status: &str) -> (r: bool)
    ensures
        r == has_line(status@, "camera=1"@),
{
    status_has_line(status, "camera=1")
}

/// Whether the native side reports a microphone: its status file has the line
/// `microphone=1`.
pub fn microphone_status_available(status: &str) -> (r: bool)
    ensures
        r == has_line(status@, "microphone=1"@),
{
    status_has_line(status, "microphone=1")
}

/// The shortest time between two capture warnings in the log, in nanoseconds.
pub const CAPTURE_LOG_INTERVAL_NANOS: u128 = 10_000_000_000;

/// Whether a capture warning is logged now, given the time since the last one
/// was logged (`None` when none was, or the clock went backwards): only when
/// at least the interval has passed.
pub fn capture_log_due(elapsed_nanos: Option<u128>) -> (r: bool)
    ensures
        r == !(elapsed_nanos matches Some(e) && e < CAPTURE_LOG_INTERVAL_NANOS),
{
    match elapsed_nanos {
        Some(e) => e >= CAPTURE_LOG_INTERVAL_NANOS,
        None => true,
    }
}

/// Whether a warning at `now` is logged when the last one was logged at
/// `last` (times in nanoseconds on one clock): `capture_log_due` of the time
/// elapsed since, which is unknown when the clock reads earlier.
pub open spec fn logs_at(last: Option<int>, now: int) -> bool {
    match last {
        None => true,
        Some(t) => !(now >= t && now - t < CAPTURE_LOG_INTERVAL_NANOS),
    }
}

/// When the last of the warnings raised at `times` was logged.
pub open spec fn last_logged(times: Seq<int>) -> Option<int>
    decreases times.len(),
{
    if times.len() == 0 {
        None
    } else {
        let before = last_logged(times.drop_last());
        if logs_at(before, times.last()) {
            Some(times.last())
        } else {
            before
        }
    }
}

/// The warning raised at index `i` of `times` is logged.
pub open spec fn is_logged(times: Seq<int>, i: int) -> bool {
    logs_at(last_logged(times.take(i)), times[i])
}

proof fn lemma_last_logged_follows(times: Seq<int>, i: int, k: int)
    requires
        0 <= i < k <= times.len(),
        forall|a: int, b: int| 0 <= a <= b < times.len() ==> times[a] <= times[b],
        is_logged(times, i),
    ensures
        last_logged(times.take(k)) matches Some(t) && times[i] <= t <= times[k - 1],
    decreases k - i,
{
    assert(times.take(k).drop_last() =~= times.take(k - 1));
    assert(times.take(k).last() == times[k - 1]);
    if k > i + 1 {
        lemma_last_logged_follows(times, i, k - 1);
    } else {
        assert(times.take(i + 1).drop_last() =~= times.take(i));
    }
}

/// On a clock that does not go back, any two capture warnings that are
/// logged are at least the interval (ten seconds) apart.
pub proof fn lemma_logged_warnings_are_spaced(times: Seq<int>, i: int, j: int)
    requires
        0 <= i < j < times.len(),
        forall|a: int, b: int| 0 <= a <= b < times.len() ==> times[a] <= times[b],
        is_logged(times, i),
        is_logged(times, j),
    ensures
        times[j] - times[i] >= CAPTURE_LOG_INTERVAL_NANOS,
{
    lemma_last_logged_follows(times, i, j);
}

} // verus!
