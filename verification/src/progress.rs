//! Turning a line of the tool's output into a progress record.

use vstd::prelude::*;
use crate::text::{all_digits, chars_of, contains, digits_value, includes, is_digit};

verus! {

/// Progress of a running download, as the tool reported it on one line.
#[derive(Debug, Clone)]
pub struct DownloadProgress {
    /// Share of the work that is done, as decimal text between "0" and "100".
    pub percent: String,
    /// Transfer rate, or "---" when the line gives none.
    pub speed: String,
    /// Estimated time that remains, or "--:--" when the line gives none.
    pub eta: String,
}

/// A progress record over plain text.
pub ghost struct ProgressText {
    pub percent: Seq<char>,
    pub speed: Seq<char>,
    pub eta: Seq<char>,
}

impl View for DownloadProgress {
    type V = ProgressText;

    open spec fn view(&self) -> ProgressText {
        ProgressText { percent: self.percent@, speed: self.speed@, eta: self.eta@ }
    }
}

/// What the pattern engine finds for `pattern` in `text`: the text that the
/// pattern's first group holds in the leftmost match.  The outer `None` is a
/// pattern that the engine does not accept; the inner `None` is a text
/// without a match, or a match in which the group took no part.
pub uninterp spec fn first_capture(pattern: Seq<char>, text: Seq<char>) -> Option<
    Option<Seq<char>>,
>;

/// The outcome of a search over plain text.
pub open spec fn capture_text(found: Option<Option<String>>) -> Option<Option<Seq<char>>> {
    match found {
        Some(Some(s)) => Some(Some(s@)),
        Some(None) => Some(None),
        None => None,
    }
}

/// Searches `text` with the pattern engine of the `regex` crate:
/// `Regex::new` compiles `pattern`, `Regex::captures` finds the leftmost
/// match and `Captures::get(1)` gives its first group.  The contract only
/// names the result; nothing is claimed about what the engine matches.
#[verifier::external_body]
fn capture(pattern: &str, text: &str) -> (found: Option<Option<String>>)
    ensures
        capture_text(found) == first_capture(pattern@, text@),
{
    match regex::Regex::new(pattern) {
        Ok(re) => Some(re.captures(text).and_then(|c| c.get(1)).map(|m| m.as_str().to_string())),
        Err(_) => None,
    }
}

/// A number followed by a percent sign; the group is the number.
pub open spec fn percent_pattern() -> Seq<char> {
    "(\\d+(?:\\.\\d+)?)%"@
}

/// The word `at`, blanks, and a token; the group is the token.
pub open spec fn speed_pattern() -> Seq<char> {
    "at\\s+(\\S+)"@
}

/// The word `ETA`, blanks, and a token; the group is the token.
pub open spec fn eta_pattern() -> Seq<char> {
    "ETA\\s+(\\S+)"@
}

/// Every character of `text` from `from` up to `to` is a digit.
pub open spec fn digits_between(text: Seq<char>, from: int, to: int) -> bool {
    forall|k: int| from <= k < to ==> is_digit(#[trigger] text[k])
}

/// `text` is a decimal number: one or more digits, and optionally a point
/// followed by one or more digits.
pub open spec fn decimal_text(text: Seq<char>) -> bool {
    ||| (text.len() > 0 && digits_between(text, 0, text.len() as int))
    ||| exists|point: int|
        0 < point < text.len() - 1 && #[trigger] text[point] == '.' && digits_between(
            text,
            0,
            point,
        ) && digits_between(text, point + 1, text.len() as int)
}

fn digit_run(text: &Vec<char>, from: usize) -> (end: usize)
    requires
        from <= text.len(),
    ensures
        from <= end <= text.len(),
        digits_between(text@, from as int, end as int),
        end < text.len() ==> !is_digit(text[end as int]),
{
    let mut end: usize = from;
    while end < text.len() && '0' <= text[end] && text[end] <= '9'
        invariant
            from <= end <= text.len(),
            digits_between(text@, from as int, end as int),
        decreases text.len() - end,
    {
        end += 1;
    }
    end
}

/// Whether `text` is a decimal number.
pub fn is_decimal(text: &Vec<char>) -> (yes: bool)
    ensures
        yes == decimal_text(text@),
{
    let whole = digit_run(text, 0);
    if whole == 0 {
        assert(!decimal_text(text@)) by {
            if text.len() > 0 {
                assert(!is_digit(text@[0]));
            }
        }
        return false;
    }
    if whole == text.len() {
        return true;
    }
    if text[whole] != '.' {
        assert(!decimal_text(text@)) by {
            assert(!is_digit(text@[whole as int]));
            assert forall|point: int|
                0 < point < text.len() - 1 && #[trigger] text@[point] == '.' implies !(
                digits_between(text@, 0, point) && digits_between(
                    text@,
                    point + 1,
                    text.len() as int,
                )) by {
                if point < whole {
                    assert(is_digit(text@[point]));
                } else if point > whole {
                    assert(!is_digit(text@[whole as int]));
                }
            }
        }
        return false;
    }
    let end = digit_run(text, whole + 1);
    let ok = end == text.len() && end > whole + 1;
    proof {
        assert(!is_digit(text@[whole as int]));
        if ok {
            assert(text@[whole as int] == '.');
        } else {
            assert forall|point: int|
                0 < point < text.len() - 1 && #[trigger] text@[point] == '.' implies !(
                digits_between(text@, 0, point) && digits_between(
                    text@,
                    point + 1,
                    text.len() as int,
                )) by {
                if point < whole {
                    assert(is_digit(text@[point]));
                } else if point > whole {
                    assert(!is_digit(text@[whole as int]));
                } else if end < text.len() {
                    assert(!is_digit(text@[end as int]));
                }
            }
        }
    }
    ok
}

/// Ten to the power `k`.
pub open spec fn pow10(k: nat) -> nat
    decreases k,
{
    if k == 0 {
        1
    } else {
        10 * pow10((k - 1) as nat)
    }
}

/// The first position at or after `from` that holds a point, or the
/// length of `text` where there is none.
pub open spec fn point_from(text: Seq<char>, from: int) -> int
    decreases text.len() - from,
{
    if from < 0 || from >= text.len() {
        text.len() as int
    } else if text[from] == '.' {
        from
    } else {
        point_from(text, from + 1)
    }
}

/// The digits of a decimal number before its point.
pub open spec fn whole_part(text: Seq<char>) -> Seq<char> {
    text.take(point_from(text, 0))
}

/// The digits of a decimal number after its point; none where it has no
/// point.
pub open spec fn fraction_part(text: Seq<char>) -> Seq<char> {
    if point_from(text, 0) < text.len() {
        text.skip(point_from(text, 0) + 1)
    } else {
        Seq::<char>::empty()
    }
}

/// The value of a decimal number is `decimal_numerator` over
/// `decimal_denominator`: all its digits read as one number, over ten to
/// the number of digits after the point.
pub open spec fn decimal_numerator(text: Seq<char>) -> nat {
    digits_value(whole_part(text) + fraction_part(text))
}

/// See `decimal_numerator`.
pub open spec fn decimal_denominator(text: Seq<char>) -> nat {
    pow10(fraction_part(text).len())
}

/// The value of the decimal number `text` is at most a hundred.
pub open spec fn at_most_hundred(text: Seq<char>) -> bool {
    decimal_numerator(text) <= 100 * decimal_denominator(text)
}

/// `text` is a percentage: a decimal number from 0 to 100.
pub open spec fn percent_text(text: Seq<char>) -> bool {
    decimal_text(text) && at_most_hundred(text)
}

proof fn lemma_pow10_positive(k: nat)
    ensures
        pow10(k) >= 1,
    decreases k,
{
    if k > 0 {
        lemma_pow10_positive((k - 1) as nat);
    }
}

proof fn lemma_value_joined(a: Seq<char>, b: Seq<char>)
    ensures
        digits_value(a + b) == digits_value(a) * pow10(b.len()) + digits_value(b),
    decreases b.len(),
{
    if b.len() == 0 {
        assert(a + b =~= a);
        assert(pow10(b.len()) == 1);
        assert(digits_value(b) == 0);
        assert(digits_value(a) * 1 == digits_value(a));
    } else {
        let front = b.drop_last();
        assert((a + b).drop_last() =~= a + front);
        assert((a + b).last() == b.last());
        lemma_value_joined(a, front);
        let d = ((b.last() as u8) - ('0' as u8)) as nat;
        let va = digits_value(a);
        let vf = digits_value(front);
        let pf = pow10(front.len());
        assert(digits_value(a + b) == (va * pf + vf) * 10 + d);
        assert(digits_value(b) == vf * 10 + d);
        assert(pow10(b.len()) == 10 * pf);
        assert((va * pf + vf) * 10 + d == va * (10 * pf) + (vf * 10 + d)) by (nonlinear_arith);
        assert(digits_value(a + b) == va * pow10(b.len()) + digits_value(b));
    }
}

proof fn lemma_value_below(b: Seq<char>)
    requires
        all_digits(b),
    ensures
        digits_value(b) < pow10(b.len()),
        digits_value(b) == 0 <==> forall|k: int| 0 <= k < b.len() ==> b[k] == '0',
    decreases b.len(),
{
    if b.len() > 0 {
        let front = b.drop_last();
        assert(all_digits(front)) by {
            assert forall|k: int| 0 <= k < front.len() implies is_digit(#[trigger] front[k]) by {
                assert(is_digit(b[k]));
            }
        }
        lemma_value_below(front);
        assert(is_digit(b[b.len() - 1]));
        let d = ((b.last() as u8) - ('0' as u8)) as nat;
        assert(d <= 9);
        assert(d == 0 <==> b.last() == '0');
        assert(digits_value(b) == digits_value(front) * 10 + d);
        if digits_value(b) == 0 {
            assert forall|k: int| 0 <= k < b.len() implies b[k] == '0' by {
                if k < front.len() {
                    assert(front[k] == b[k]);
                }
            }
        }
        if forall|k: int| 0 <= k < b.len() ==> b[k] == '0' {
            assert forall|k: int| 0 <= k < front.len() implies front[k] == '0' by {
                assert(front[k] == b[k]);
            }
            assert(b[b.len() - 1] == '0');
        }
    }
}

proof fn lemma_point_from(text: Seq<char>, from: int, point: int)
    requires
        0 <= from <= point <= text.len(),
        forall|k: int| from <= k < point ==> text[k] != '.',
        point < text.len() ==> text[point] == '.',
    ensures
        point_from(text, from) == point,
    decreases point - from,
{
    if from < point {
        lemma_point_from(text, from + 1, point);
    }
}

/// How the value of a decimal number compares with a hundred, read off its
/// two parts.
proof fn lemma_at_most_hundred(text: Seq<char>)
    requires
        all_digits(fraction_part(text)),
    ensures
        at_most_hundred(text) <==> digits_value(whole_part(text)) < 100 || (digits_value(
            whole_part(text),
        ) == 100 && forall|k: int|
            0 <= k < fraction_part(text).len() ==> fraction_part(text)[k] == '0'),
{
    let w = digits_value(whole_part(text));
    let f = digits_value(fraction_part(text));
    let p = pow10(fraction_part(text).len());
    lemma_value_joined(whole_part(text), fraction_part(text));
    lemma_value_below(fraction_part(text));
    lemma_pow10_positive(fraction_part(text).len());
    assert(decimal_numerator(text) == w * p + f);
    if w < 100 {
        assert(w * p + f <= 100 * p) by (nonlinear_arith)
            requires
                w <= 99,
                f < p,
        ;
    } else if w == 100 {
        assert(w * p == 100 * p);
    } else {
        assert(w * p + f > 100 * p) by (nonlinear_arith)
            requires
                w >= 101,
                p >= 1,
        ;
    }
}

/// The value of the digits of `text` before `to`, or 101 where that is
/// more than a hundred.
fn capped_value(text: &Vec<char>, to: usize) -> (value: u64)
    requires
        to <= text.len(),
        digits_between(text@, 0, to as int),
    ensures
        value == if digits_value(text@.take(to as int)) > 100 {
            101
        } else {
            digits_value(text@.take(to as int))
        },
{
    let mut value: u64 = 0;
    let mut i: usize = 0;
    assert(text@.take(0) =~= Seq::<char>::empty());
    while i < to
        invariant
            i <= to <= text.len(),
            digits_between(text@, 0, to as int),
            value == if digits_value(text@.take(i as int)) > 100 {
                101
            } else {
                digits_value(text@.take(i as int))
            },
        decreases to - i,
    {
        let c = text[i];
        assert(is_digit(text@[i as int]));
        let d: u64 = ((c as u8) - ('0' as u8)) as u64;
        proof {
            let next = text@.take(i as int + 1);
            assert(next.drop_last() =~= text@.take(i as int));
            assert(next.last() == c);
            assert(digits_value(next) == digits_value(text@.take(i as int)) * 10 + d);
        }
        value = if value > 100 {
            101
        } else {
            let grown: u64 = value * 10 + d;
            if grown > 100 {
                101
            } else {
                grown
            }
        };
        i += 1;
    }
    value
}

/// Whether the decimal number `text` is at most a hundred.
fn in_percent_range(text: &Vec<char>) -> (yes: bool)
    requires
        decimal_text(text@),
    ensures
        yes == at_most_hundred(text@),
{
    let point = digit_run(text, 0);
    proof {
        // The digits end at the point, or at the end of the text.
        if point < text.len() {
            assert(!is_digit(text@[point as int]));
            if text@.len() > 0 && digits_between(text@, 0, text@.len() as int) {
                assert(is_digit(text@[point as int]));
            }
            let at = choose|at: int|
                0 < at < text@.len() - 1 && #[trigger] text@[at] == '.' && digits_between(
                    text@,
                    0,
                    at,
                ) && digits_between(text@, at + 1, text@.len() as int);
            if at < point {
                assert(is_digit(text@[at]));
            } else if at > point {
                assert(is_digit(text@[point as int]));
            }
            assert(at == point);
        }
        assert forall|k: int| 0 <= k < point implies text@[k] != '.' by {
            assert(is_digit(text@[k]));
        }
        lemma_point_from(text@, 0, point as int);
        assert(whole_part(text@) == text@.take(point as int));
        assert(all_digits(fraction_part(text@))) by {
            let frac = fraction_part(text@);
            assert forall|k: int| 0 <= k < frac.len() implies is_digit(#[trigger] frac[k]) by {
                assert(frac[k] == text@[point + 1 + k]);
                assert(is_digit(text@[point + 1 + k]));
            }
        }
        lemma_at_most_hundred(text@);
    }
    let whole = capped_value(text, point);
    if whole < 100 {
        true
    } else if whole > 100 {
        false
    } else {
        let mut j: usize = if point < text.len() {
            point + 1
        } else {
            point
        };
        let ghost start = j;
        assert(at_most_hundred(text@) <==> forall|k: int|
            0 <= k < fraction_part(text@).len() ==> fraction_part(text@)[k] == '0');
        while j < text.len()
            invariant
                at_most_hundred(text@) <==> forall|k: int|
                    0 <= k < fraction_part(text@).len() ==> fraction_part(text@)[k] == '0',
                point < start <= j <= text.len() || (point == start == j == text.len()),
                start == if point < text.len() {
                    point + 1
                } else {
                    point as int
                },
                point_from(text@, 0) == point,
                forall|k: int| start <= k < j ==> text@[k] == '0',
            decreases text.len() - j,
        {
            if text[j] != '0' {
                assert(fraction_part(text@)[j - start] == text@[j as int]);
                return false;
            }
            j += 1;
        }
        assert forall|k: int| 0 <= k < fraction_part(text@).len() implies fraction_part(
            text@,
        )[k] == '0' by {
            assert(fraction_part(text@)[k] == text@[start + k]);
        }
        true
    }
}

/// Whether `text` is a percentage: a decimal number from 0 to 100.
pub fn is_percent(text: &Vec<char>) -> (yes: bool)
    ensures
        yes == percent_text(text@),
{
    is_decimal(text) && in_percent_range(text)
}

/// The record that a line stands for, given what the three searches found
/// in it.  A line is a progress line only if it holds the marker
/// `[download]` and a percent sign, and the percent search found a
/// percentage: a decimal number that is at most a hundred.  A rate or a
/// remaining time that was not found is reported as `---` and `--:--`.
pub open spec fn progress_of(
    line: Seq<char>,
    percent: Option<Option<Seq<char>>>,
    speed: Option<Option<Seq<char>>>,
    eta: Option<Option<Seq<char>>>,
) -> Option<ProgressText> {
    if !contains(line, "[download]"@) || !contains(line, "%"@) {
        None
    } else {
        match (percent, speed, eta) {
            (Some(Some(p)), Some(s), Some(e)) => if percent_text(p) {
                Some(
                    ProgressText {
                        percent: p,
                        speed: match s {
                            Some(t) => t,
                            None => "---"@,
                        },
                        eta: match e {
                            Some(t) => t,
                            None => "--:--"@,
                        },
                    },
                )
            } else {
                None
            },
            _ => None,
        }
    }
}

/// The view of an optional record.
pub open spec fn progress_text(record: Option<DownloadProgress>) -> Option<ProgressText> {
    match record {
        Some(r) => Some(r@),
        None => None,
    }
}

/// The record for `line`, given what the searches for the percentage, the
/// rate and the remaining time found in it.
pub fn assemble_progress(
    line: &str,
    percent: Option<Option<String>>,
    speed: Option<Option<String>>,
    eta: Option<Option<String>>,
) -> (record: Option<DownloadProgress>)
    ensures
        progress_text(record) == progress_of(
            line@,
            capture_text(percent),
            capture_text(speed),
            capture_text(eta),
        ),
{
    let l = chars_of(line);
    if !includes(&l, "[download]") || !includes(&l, "%") {
        return None;
    }
    match (percent, speed, eta) {
        (Some(Some(p)), Some(s), Some(e)) => {
            if is_percent(&chars_of(p.as_str())) {
                Some(
                    DownloadProgress {
                        percent: p,
                        speed: match s {
                            Some(t) => t,
                            None => "---".to_owned(),
                        },
                        eta: match e {
                            Some(t) => t,
                            None => "--:--".to_owned(),
                        },
                    },
                )
            } else {
                None
            }
        },
        _ => None,
    }
}

/// The progress that `line` reports, if it is a progress line.
pub fn parse_progress(line: &str) -> (record: Option<DownloadProgress>)
    ensures
        progress_text(record) == progress_of(
            line@,
            first_capture(percent_pattern(), line@),
            first_capture(speed_pattern(), line@),
            first_capture(eta_pattern(), line@),
        ),
        !contains(line@, "[download]"@) || !contains(line@, "%"@) ==> record is None,
{
    let percent = capture("(\\d+(?:\\.\\d+)?)%", line);
    let speed = capture("at\\s+(\\S+)", line);
    let eta = capture("ETA\\s+(\\S+)", line);
    assemble_progress(line, percent, speed, eta)
}

} // verus!
