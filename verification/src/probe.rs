//! The duration probe: what the prober is asked, and how its answer is read.
//!
//! The prober prints the container's length in seconds as plain decimal text,
//! such as `12.345000`. The text is read exactly, down to the microsecond;
//! further digits are cut off.

use vstd::prelude::*;
use crate::error::{CommandError, CommandErrorView, ErrorKind};
use crate::schedule::Duration;
use crate::text::{
    all_digits,
    chars_of,
    digit_of,
    digit_value,
    is_digit,
    numeral_value,
    trim,
    trim_bounds,
};

verus! {

/// The arguments with which the prober reports the length of `path`:
/// errors only, the container's `duration` entry, as a bare value.
pub open spec fn probe_arguments(path: Seq<char>) -> Seq<Seq<char>> {
    seq![
        "-v"@,
        "error"@,
        "-show_entries"@,
        "format=duration"@,
        "-of"@,
        "default=noprint_wrappers=1:nokey=1"@,
        path,
    ]
}

/// The index of the first decimal point in `s`, or its length if it has none.
pub open spec fn point_at(s: Seq<char>) -> int
    decreases s.len(),
{
    if s.len() == 0 || s[0] == '.' {
        0
    } else {
        1 + point_at(s.drop_first())
    }
}

/// The digits before the decimal point.
pub open spec fn whole_part(s: Seq<char>) -> Seq<char> {
    s.take(point_at(s))
}

/// The digits after the decimal point; none where there is no point.
pub open spec fn fraction_part(s: Seq<char>) -> Seq<char> {
    if point_at(s) < s.len() {
        s.skip(point_at(s) + 1)
    } else {
        Seq::empty()
    }
}

/// Whether `s` is an unsigned decimal number: digits, with at most one point
/// among them, and at least one digit in all.
pub open spec fn is_decimal_text(s: Seq<char>) -> bool {
    &&& all_digits(whole_part(s))
    &&& all_digits(fraction_part(s))
    &&& whole_part(s).len() + fraction_part(s).len() >= 1
}

/// The first `places` digits of a fraction, read as one number; where the
/// fraction is shorter, the missing digits count as zeros.
pub open spec fn leading_places(fraction: Seq<char>, places: nat) -> nat
    decreases places,
{
    if places == 0 {
        0
    } else {
        leading_places(fraction, (places - 1) as nat) * 10 + if places - 1 < fraction.len() {
            digit_value(fraction[places - 1])
        } else {
            0
        }
    }
}

/// The number of whole microseconds in the seconds that the decimal number
/// `s` states.
pub open spec fn micros_of(s: Seq<char>) -> nat {
    numeral_value(whole_part(s)) * 1_000_000 + leading_places(fraction_part(s), 6)
}

/// The duration that the prober's output states: the output is trimmed and
/// must then be a decimal number of seconds that fits the duration's range.
pub open spec fn duration_of(output: Seq<char>) -> Option<u64> {
    let text = trim(output);
    if is_decimal_text(text) && micros_of(text) <= u64::MAX {
        Some(micros_of(text) as u64)
    } else {
        None
    }
}

/// Why output that states no duration was refused: it held nothing but white
/// space, or it is no number.
pub open spec fn parse_failure_detail(output: Seq<char>) -> Seq<char> {
    if trim(output).len() == 0 {
        "cannot parse float from empty string"@
    } else {
        "invalid float literal"@
    }
}

/// The error for output that states no duration.
pub open spec fn parse_failure(output: Seq<char>) -> CommandErrorView {
    CommandErrorView {
        kind: ErrorKind::ParseFailure,
        message: "Failed to parse duration: "@ + parse_failure_detail(output),
    }
}

/// A number is at least the number that any of its leading digits state.
proof fn lemma_numeral_prefix(s: Seq<char>, k: int)
    requires
        0 <= k <= s.len(),
    ensures
        numeral_value(s.take(k)) <= numeral_value(s),
    decreases s.len() - k,
{
    if k == s.len() {
        assert(s.take(k) =~= s);
    } else {
        lemma_numeral_prefix(s.drop_last(), k);
        assert(s.drop_last().take(k) =~= s.take(k));
    }
}

/// Where the first `i` characters hold no point and the next one is a point
/// or the end, the point is at `i`.
proof fn lemma_point_found(s: Seq<char>, i: int)
    requires
        0 <= i <= s.len(),
        forall|k: int| 0 <= k < i ==> s[k] != '.',
        i == s.len() || s[i] == '.',
    ensures
        point_at(s) == i,
    decreases i,
{
    if i > 0 {
        lemma_point_found(s.drop_first(), i - 1);
    }
}

/// The prober's argument list for the video at `path`.
pub fn probe_args(path: &str) -> (args: Vec<String>)
    ensures
        args.deep_view() == probe_arguments(path@),
{
    let mut args: Vec<String> = Vec::new();
    args.push(String::from_str("-v"));
    args.push(String::from_str("error"));
    args.push(String::from_str("-show_entries"));
    args.push(String::from_str("format=duration"));
    args.push(String::from_str("-of"));
    args.push(String::from_str("default=noprint_wrappers=1:nokey=1"));
    args.push(String::from_str(path));
    assert(args.deep_view() =~= probe_arguments(path@));
    args
}

fn parse_failed(detail: &str) -> (r: Result<Duration, CommandError>)
    ensures
        r matches Err(e) && e@.kind == ErrorKind::ParseFailure && e@.message
            == "Failed to parse duration: "@ + detail@,
{
    Err(CommandError::with_detail(ErrorKind::ParseFailure, "Failed to parse duration: ", detail))
}

/// Reads the duration that the prober printed.
#[verifier::loop_isolation(false)]
pub fn parse_duration(output: &str) -> (r: Result<Duration, CommandError>)
    ensures
        match duration_of(output@) {
            Some(micros) => r matches Ok(d) && d.micros == micros,
            None => r matches Err(e) && e@ == parse_failure(output@),
        },
{
    let chars = chars_of(output);
    let (start, end) = trim_bounds(&chars);
    let ghost text = trim(output@);
    if start == end {
        return parse_failed("cannot parse float from empty string");
    }
    let invalid = "invalid float literal";
    // The digits before the point.
    let mut i: usize = start;
    let mut whole: u64 = 0;
    while i < end && chars[i] != '.'
        invariant
            start <= i <= end,
            forall|k: int| 0 <= k < i - start ==> text[k] != '.' && is_digit(#[trigger] text[k]),
            whole == numeral_value(text.take(i - start)),
        decreases end - i,
    {
        let ghost k = i - start;
        proof {
            assert(text[k] == chars@[i as int]);
            assert(text.take(k + 1).drop_last() =~= text.take(k));
        }
        let digit = match digit_of(chars[i]) {
            Some(d) => d,
            None => {
                proof {
                    // A character before the point that is no digit.
                    lemma_point_at_least(text, k + 1);
                    assert(whole_part(text)[k] == text[k]);
                }
                return parse_failed(invalid);
            },
        };
        let next = match whole.checked_mul(10) {
            Some(tens) => tens.checked_add(digit),
            None => None,
        };
        whole = match next {
            Some(n) => n,
            None => {
                proof {
                    // The whole seconds alone are out of range.
                    lemma_point_at_least(text, k + 1);
                    assert(whole_part(text).take(k + 1) =~= text.take(k + 1));
                    lemma_numeral_prefix(whole_part(text), k + 1);
                }
                return parse_failed(invalid);
            },
        };
        i = i + 1;
    }
    let ghost point = i - start;
    proof {
        lemma_point_found(text, point);
    }
    // The digits after it.
    let mut seen: usize = 0;
    let mut places: u64 = 0;
    let mut fraction: u64 = 0;
    let mut j: usize = if i < end {
        i + 1
    } else {
        end
    };
    let ghost first = j - start;
    let ghost tail = fraction_part(text);
    assert(tail =~= text.skip(first));
    while j < end
        invariant
            first <= j - start <= end - start,
            seen == j - start - first,
            forall|k: int| 0 <= k < seen ==> is_digit(#[trigger] tail[k]),
            places <= 6,
            places <= seen,
            places < 6 ==> places == seen,
            fraction == leading_places(tail, places as nat),
            fraction < 1_000_000,
        decreases end - j,
    {
        assert(text[j - start] == chars@[j as int]);
        assert(tail[seen as int] == chars@[j as int]);
        let digit = match digit_of(chars[j]) {
            Some(d) => d,
            None => {
                return parse_failed(invalid);
            },
        };
        if places < 6 {
            proof {
                lemma_places_bounded(tail, places as nat);
                lemma_places_bounded(tail, (places + 1) as nat);
            }
            fraction = fraction * 10 + digit;
            places = places + 1;
        }
        seen = seen + 1;
        j = j + 1;
    }
    assert(all_digits(tail));
    while places < 6
        invariant
            places <= 6,
            all_digits(tail),
            places < 6 ==> tail.len() <= places,
            fraction == leading_places(tail, places as nat),
            fraction < 1_000_000,
        decreases 6 - places,
    {
        proof {
            lemma_places_bounded(tail, places as nat);
            lemma_places_bounded(tail, (places + 1) as nat);
        }
        fraction = fraction * 10;
        places = places + 1;
    }
    assert(all_digits(whole_part(text)));
    if i - start + seen == 0 {
        return parse_failed(invalid);
    }
    let total = match whole.checked_mul(1_000_000) {
        Some(scaled) => scaled.checked_add(fraction),
        None => None,
    };
    match total {
        Some(micros) => Ok(Duration { micros }),
        None => parse_failed(invalid),
    }
}

/// The error for a prober that could not be started.
pub open spec fn probe_launch_failure(detail: Seq<char>) -> CommandErrorView {
    CommandErrorView {
        kind: ErrorKind::ProcessLaunchFailure,
        message: "Failed to execute ffprobe: "@ + detail,
    }
}

/// The duration command's answer after the prober was run: the duration it
/// printed, or the error to show. A prober that could not be started carries
/// the reason as text.
pub fn duration_from_probe(run: Result<String, String>) -> (r: Result<Duration, CommandError>)
    ensures
        match run {
            Err(detail) => r matches Err(e) && e@ == probe_launch_failure(detail@),
            Ok(output) => match duration_of(output@) {
                Some(micros) => r matches Ok(d) && d.micros == micros,
                None => r matches Err(e) && e@ == parse_failure(output@),
            },
        },
{
    match run {
        Err(detail) => Err(
            CommandError::with_detail(
                ErrorKind::ProcessLaunchFailure,
                "Failed to execute ffprobe: ",
                detail.as_str(),
            ),
        ),
        Ok(output) => parse_duration(output.as_str()),
    }
}

/// The point lies at or after `i` where the first `i` characters hold none.
proof fn lemma_point_at_least(s: Seq<char>, i: int)
    requires
        0 <= i <= s.len(),
        forall|k: int| 0 <= k < i ==> s[k] != '.',
    ensures
        i <= point_at(s) <= s.len(),
    decreases s.len(),
{
    if s.len() == 0 || s[0] == '.' {
    } else {
        if i > 0 {
            lemma_point_at_least(s.drop_first(), i - 1);
        } else {
            lemma_point_at_least(s.drop_first(), 0);
        }
    }
}

/// `places` digits state a number below the `places`-th power of ten.
proof fn lemma_places_bounded(fraction: Seq<char>, places: nat)
    requires
        places <= 6,
        forall|k: int| 0 <= k < places && k < fraction.len() ==> is_digit(#[trigger] fraction[k]),
    ensures
        places == 0 ==> leading_places(fraction, places) < 1,
        places == 1 ==> leading_places(fraction, places) < 10,
        places == 2 ==> leading_places(fraction, places) < 100,
        places == 3 ==> leading_places(fraction, places) < 1_000,
        places == 4 ==> leading_places(fraction, places) < 10_000,
        places == 5 ==> leading_places(fraction, places) < 100_000,
        places == 6 ==> leading_places(fraction, places) < 1_000_000,
    decreases places,
{
    if places > 0 {
        lemma_places_bounded(fraction, (places - 1) as nat);
    }
}

} // verus!
