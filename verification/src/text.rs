//! Character-level helpers on which the rest of the crate is built.
//!
//! Text is viewed as a `Seq<char>`; every helper states its result over
//! that view.

use vstd::prelude::*;
use vstd::string::StringExecFns;

verus! {

/// `needle` occurs in `hay` starting at position `at`.
pub open spec fn occurs_at(hay: Seq<char>, needle: Seq<char>, at: int) -> bool {
    &&& 0 <= at
    &&& at + needle.len() <= hay.len()
    &&& hay.subrange(at, at + needle.len()) == needle
}

/// `needle` occurs somewhere in `hay`.
pub open spec fn contains(hay: Seq<char>, needle: Seq<char>) -> bool {
    exists|at: int| occurs_at(hay, needle, at)
}

/// `hay` begins with `prefix`.
pub open spec fn starts_with(hay: Seq<char>, prefix: Seq<char>) -> bool {
    occurs_at(hay, prefix, 0)
}

/// `hay` ends with `suffix`.
pub open spec fn ends_with(hay: Seq<char>, suffix: Seq<char>) -> bool {
    occurs_at(hay, suffix, hay.len() - suffix.len())
}

/// `String::push` appends one character.
pub assume_specification[ String::push ](s: &mut String, ch: char)
    ensures
        final(s)@ == old(s)@.push(ch),
;

/// The characters of `s`, in order.
pub fn chars_of(s: &str) -> (out: Vec<char>)
    ensures
        out@ == s@,
{
    let mut out: Vec<char> = Vec::new();
    for c in it: s.chars()
        invariant
            out@ == it.seq().take(it.index()),
            it.seq() == s@,
    {
        out.push(c);
    }
    out
}

/// The string that holds exactly the characters of `chars`.
pub fn string_of(chars: &Vec<char>) -> (out: String)
    ensures
        out@ == chars@,
{
    let mut out = String::new();
    let mut i: usize = 0;
    while i < chars.len()
        invariant
            i <= chars.len(),
            out@ == chars@.take(i as int),
        decreases chars.len() - i,
    {
        out.push(chars[i]);
        assert(chars@.take(i as int + 1) =~= chars@.take(i as int).push(chars@[i as int]));
        i += 1;
    }
    assert(chars@.take(chars.len() as int) =~= chars@);
    out
}

/// Whether `needle` occurs in `hay` at position `at`.
pub fn matches_at(hay: &Vec<char>, needle: &Vec<char>, at: usize) -> (found: bool)
    ensures
        found == occurs_at(hay@, needle@, at as int),
{
    if needle.len() > hay.len() || at > hay.len() - needle.len() {
        return false;
    }
    let mut j: usize = 0;
    while j < needle.len()
        invariant
            j <= needle.len(),
            at + needle.len() <= hay.len(),
            forall|k: int| 0 <= k < j ==> hay@[at + k] == needle@[k],
        decreases needle.len() - j,
    {
        if hay[at + j] != needle[j] {
            assert(hay@.subrange(at as int, at + needle.len())[j as int] == hay@[at + j]);
            return false;
        }
        j += 1;
    }
    assert(hay@.subrange(at as int, at + needle.len()) =~= needle@);
    true
}

/// The first position at which `needle` occurs in `hay`, if any.
pub fn find(hay: &Vec<char>, needle: &Vec<char>) -> (pos: Option<usize>)
    ensures
        match pos {
            Some(at) => occurs_at(hay@, needle@, at as int) && forall|k: int|
                0 <= k < at ==> !occurs_at(hay@, needle@, k),
            None => !contains(hay@, needle@),
        },
{
    if needle.len() > hay.len() {
        return None;
    }
    let last: usize = hay.len() - needle.len();
    let mut at: usize = 0;
    while at < last
        invariant
            at <= last,
            last == hay.len() - needle.len(),
            forall|k: int| 0 <= k < at ==> !occurs_at(hay@, needle@, k),
        decreases last - at,
    {
        if matches_at(hay, needle, at) {
            return Some(at);
        }
        at += 1;
    }
    if matches_at(hay, needle, last) {
        Some(last)
    } else {
        None
    }
}

/// Whether `needle` occurs in `hay`.
pub fn includes(hay: &Vec<char>, needle: &str) -> (found: bool)
    ensures
        found == contains(hay@, needle@),
{
    let n = chars_of(needle);
    find(hay, &n).is_some()
}

/// Whether `hay` begins with `prefix`.
pub fn has_prefix(hay: &Vec<char>, prefix: &str) -> (found: bool)
    ensures
        found == starts_with(hay@, prefix@),
{
    let p = chars_of(prefix);
    matches_at(hay, &p, 0)
}

/// Whether `hay` ends with `suffix`.
pub fn has_suffix(hay: &Vec<char>, suffix: &Vec<char>) -> (found: bool)
    ensures
        found == ends_with(hay@, suffix@),
{
    if suffix.len() > hay.len() {
        return false;
    }
    matches_at(hay, suffix, hay.len() - suffix.len())
}

/// Whether the two texts hold the same characters.
pub fn same_text(a: &Vec<char>, b: &Vec<char>) -> (same: bool)
    ensures
        same == (a@ == b@),
{
    if a.len() != b.len() {
        return false;
    }
    let found = matches_at(a, b, 0);
    proof {
        if a@ == b@ {
            assert(a@.subrange(0, b@.len() as int) =~= b@);
        }
        if found {
            assert(a@.subrange(0, b@.len() as int) =~= a@);
        }
    }
    found
}

/// Appends the characters of `tail` to `buf`.
pub fn push_str(buf: &mut Vec<char>, tail: &str)
    ensures
        final(buf)@ == old(buf)@ + tail@,
{
    let t = chars_of(tail);
    push_chars(buf, &t);
}

/// Appends `tail` to `buf`.
pub fn push_chars(buf: &mut Vec<char>, tail: &Vec<char>)
    ensures
        final(buf)@ == old(buf)@ + tail@,
{
    let mut i: usize = 0;
    while i < tail.len()
        invariant
            i <= tail.len(),
            buf@ == old(buf)@ + tail@.take(i as int),
        decreases tail.len() - i,
    {
        buf.push(tail[i]);
        assert(tail@.take(i as int + 1) =~= tail@.take(i as int).push(tail@[i as int]));
        assert(buf@ =~= old(buf)@ + tail@.take(i as int + 1));
        i += 1;
    }
    assert(tail@.take(tail.len() as int) =~= tail@);
}

/// The characters of `src` from `from` up to, not including, `to`.
pub fn slice_of(src: &Vec<char>, from: usize, to: usize) -> (out: Vec<char>)
    requires
        from <= to <= src.len(),
    ensures
        out@ == src@.subrange(from as int, to as int),
{
    let mut out: Vec<char> = Vec::new();
    let mut i: usize = from;
    while i < to
        invariant
            from <= i <= to,
            to <= src.len(),
            out@ == src@.subrange(from as int, i as int),
        decreases to - i,
    {
        out.push(src[i]);
        assert(src@.subrange(from as int, i as int + 1) =~= src@.subrange(
            from as int,
            i as int,
        ).push(src@[i as int]));
        i += 1;
    }
    out
}

/// `head` followed by `tail`.
pub fn joined(head: &str, tail: &str) -> (out: String)
    ensures
        out@ == head@ + tail@,
{
    head.to_owned().concat(tail)
}

/// The lower-case form of an ASCII capital; every other character unchanged.
pub open spec fn lower_char(c: char) -> char {
    if 'A' <= c && c <= 'Z' {
        ((c as u8) + 32) as char
    } else {
        c
    }
}

/// `text` with every ASCII capital replaced by its lower-case form.
pub open spec fn lower(text: Seq<char>) -> Seq<char> {
    text.map_values(|c: char| lower_char(c))
}

/// Equality that makes no difference between an ASCII capital and its
/// lower-case form.
pub open spec fn same_ignoring_case(a: Seq<char>, b: Seq<char>) -> bool {
    lower(a) == lower(b)
}

/// The lower-case form of `c` if it is an ASCII capital, else `c`.
pub fn to_lower_char(c: char) -> (out: char)
    ensures
        out == lower_char(c),
{
    if 'A' <= c && c <= 'Z' {
        ((c as u8) + 32) as char
    } else {
        c
    }
}

/// `text` with every ASCII capital replaced by its lower-case form.
pub fn to_lower(text: &Vec<char>) -> (out: Vec<char>)
    ensures
        out@ == lower(text@),
{
    let mut out: Vec<char> = Vec::new();
    let mut i: usize = 0;
    while i < text.len()
        invariant
            i <= text.len(),
            out@ == lower(text@.take(i as int)),
        decreases text.len() - i,
    {
        out.push(to_lower_char(text[i]));
        assert(lower(text@.take(i as int + 1)) =~= lower(text@.take(i as int)).push(
            lower_char(text@[i as int]),
        ));
        i += 1;
    }
    assert(text@.take(text.len() as int) =~= text@);
    out
}

/// `text` with every `from` replaced by `to`.
pub open spec fn replaced(text: Seq<char>, from: char, to: char) -> Seq<char> {
    text.map_values(
        |c: char|
            if c == from {
                to
            } else {
                c
            },
    )
}

/// `text` with every `from` replaced by `to`.
pub fn replace_char(text: &Vec<char>, from: char, to: char) -> (out: Vec<char>)
    ensures
        out@ == replaced(text@, from, to),
{
    let mut out: Vec<char> = Vec::new();
    let mut i: usize = 0;
    while i < text.len()
        invariant
            i <= text.len(),
            out@ == replaced(text@.take(i as int), from, to),
        decreases text.len() - i,
    {
        let c = text[i];
        out.push(
            if c == from {
                to
            } else {
                c
            },
        );
        assert(replaced(text@.take(i as int + 1), from, to) =~= replaced(
            text@.take(i as int),
            from,
            to,
        ).push(
            if text@[i as int] == from {
                to
            } else {
                text@[i as int]
            },
        ));
        i += 1;
    }
    assert(text@.take(text.len() as int) =~= text@);
    out
}

/// The character that stands for the digit `d`.
pub open spec fn digit_char(d: int) -> char {
    (('0' as u8) + d) as char
}

/// `n` in decimal notation, without leading zeros.
pub open spec fn decimal(n: nat) -> Seq<char>
    decreases n,
{
    if n < 10 {
        seq![digit_char(n as int)]
    } else {
        decimal(n / 10).push(digit_char((n % 10) as int))
    }
}

/// `i` in decimal notation, with a minus sign where it is negative.
pub open spec fn signed_decimal(i: int) -> Seq<char> {
    if i < 0 {
        seq!['-'] + decimal((-i) as nat)
    } else {
        decimal(i as nat)
    }
}

/// Appends `n` in decimal notation to `buf`.
pub fn push_decimal(buf: &mut Vec<char>, n: u64)
    ensures
        final(buf)@ == old(buf)@ + decimal(n as nat),
    decreases n,
{
    if n >= 10 {
        push_decimal(buf, n / 10);
    }
    let d: u8 = (n % 10) as u8;
    buf.push((('0' as u8) + d) as char);
    assert(buf@ =~= old(buf)@ + decimal(n as nat));
}

/// Appends `i` in decimal notation to `buf`.
pub fn push_signed_decimal(buf: &mut Vec<char>, i: i32)
    ensures
        final(buf)@ == old(buf)@ + signed_decimal(i as int),
{
    if i < 0 {
        buf.push('-');
        let magnitude: u64 = (-(i as i64)) as u64;
        push_decimal(buf, magnitude);
        assert(buf@ =~= old(buf)@ + signed_decimal(i as int));
    } else {
        push_decimal(buf, i as u64);
    }
}

/// `n` in decimal notation.
pub fn decimal_string(n: u64) -> (out: String)
    ensures
        out@ == decimal(n as nat),
{
    let mut buf: Vec<char> = Vec::new();
    push_decimal(&mut buf, n);
    assert(buf@ =~= decimal(n as nat));
    string_of(&buf)
}

/// A character that separates words: one with the Unicode property
/// `White_Space`.
pub open spec fn is_space(c: char) -> bool {
    ||| ('\u{9}' <= c && c <= '\u{d}')
    ||| c == ' '
    ||| c == '\u{85}'
    ||| c == '\u{a0}'
    ||| c == '\u{1680}'
    ||| ('\u{2000}' <= c && c <= '\u{200a}')
    ||| c == '\u{2028}'
    ||| c == '\u{2029}'
    ||| c == '\u{202f}'
    ||| c == '\u{205f}'
    ||| c == '\u{3000}'
}

/// Whether `c` separates words.
pub fn is_whitespace(c: char) -> (yes: bool)
    ensures
        yes == is_space(c),
{
    ('\u{9}' <= c && c <= '\u{d}') || c == ' ' || c == '\u{85}' || c == '\u{a0}' || c
        == '\u{1680}' || ('\u{2000}' <= c && c <= '\u{200a}') || c == '\u{2028}' || c
        == '\u{2029}' || c == '\u{202f}' || c == '\u{205f}' || c == '\u{3000}'
}

/// The first position at or after `from` that holds no separator, or the
/// length of `text` where there is none.
pub open spec fn word_start(text: Seq<char>, from: int) -> int
    decreases text.len() - from,
{
    if from < 0 || from >= text.len() {
        text.len() as int
    } else if !is_space(text[from]) {
        from
    } else {
        word_start(text, from + 1)
    }
}

/// The first position at or after `from` that holds a separator, or the
/// length of `text` where there is none.
pub open spec fn word_end(text: Seq<char>, from: int) -> int
    decreases text.len() - from,
{
    if from < 0 || from >= text.len() {
        text.len() as int
    } else if is_space(text[from]) {
        from
    } else {
        word_end(text, from + 1)
    }
}

/// The first position at or after `from` that holds a line feed, or the
/// length of `text` where there is none.
pub open spec fn line_end(text: Seq<char>, from: int) -> int
    decreases text.len() - from,
{
    if from < 0 || from >= text.len() {
        text.len() as int
    } else if text[from] == '\n' {
        from
    } else {
        line_end(text, from + 1)
    }
}

/// The bounds of the spec functions above.
pub proof fn lemma_scan_bounds(text: Seq<char>, from: int)
    requires
        0 <= from <= text.len(),
    ensures
        from <= word_start(text, from) <= text.len(),
        from <= word_end(text, from) <= text.len(),
        from <= line_end(text, from) <= text.len(),
    decreases text.len() - from,
{
    if from < text.len() {
        lemma_scan_bounds(text, from + 1);
    }
}

/// The position of the first character at or after `from` that is no separator.
pub fn find_word_start(text: &Vec<char>, from: usize) -> (at: usize)
    requires
        from <= text.len(),
    ensures
        at == word_start(text@, from as int),
        from <= at <= text.len(),
{
    let mut at: usize = from;
    while at < text.len() && is_whitespace(text[at])
        invariant
            from <= at <= text.len(),
            word_start(text@, from as int) == word_start(text@, at as int),
        decreases text.len() - at,
    {
        at += 1;
    }
    at
}

/// The position of the first separator at or after `from`.
pub fn find_word_end(text: &Vec<char>, from: usize) -> (at: usize)
    requires
        from <= text.len(),
    ensures
        at == word_end(text@, from as int),
        from <= at <= text.len(),
{
    let mut at: usize = from;
    while at < text.len() && !is_whitespace(text[at])
        invariant
            from <= at <= text.len(),
            word_end(text@, from as int) == word_end(text@, at as int),
        decreases text.len() - at,
    {
        at += 1;
    }
    at
}

/// The position of the first line feed at or after `from`.
pub fn find_line_end(text: &Vec<char>, from: usize) -> (at: usize)
    requires
        from <= text.len(),
    ensures
        at == line_end(text@, from as int),
        from <= at <= text.len(),
{
    let mut at: usize = from;
    while at < text.len() && text[at] != '\n'
        invariant
            from <= at <= text.len(),
            line_end(text@, from as int) == line_end(text@, at as int),
        decreases text.len() - at,
    {
        at += 1;
    }
    at
}

/// One of the ten ASCII digits.
pub open spec fn is_digit(c: char) -> bool {
    '0' <= c && c <= '9'
}

/// Every character of `text` is a digit.
pub open spec fn all_digits(text: Seq<char>) -> bool {
    forall|k: int| 0 <= k < text.len() ==> is_digit(#[trigger] text[k])
}

/// The number that the digits of `text` stand for in decimal notation.
pub open spec fn digits_value(text: Seq<char>) -> nat
    decreases text.len(),
{
    if text.len() == 0 {
        0
    } else {
        digits_value(text.drop_last()) * 10 + ((text.last() as u8) - ('0' as u8)) as nat
    }
}

/// `text` without a plus sign at its front.
pub open spec fn unsigned_body(text: Seq<char>) -> Seq<char> {
    if text.len() > 0 && text[0] == '+' {
        text.subrange(1, text.len() as int)
    } else {
        text
    }
}

/// The number that `text` stands for: digits, with or without a plus sign
/// before them, that give a number no larger than the largest `u64`.
pub open spec fn parsed_u64(text: Seq<char>) -> Option<u64> {
    let body = unsigned_body(text);
    if body.len() > 0 && all_digits(body) && digits_value(body) <= u64::MAX {
        Some(digits_value(body) as u64)
    } else {
        None
    }
}

proof fn lemma_value_of_prefix(text: Seq<char>, n: int)
    requires
        0 <= n <= text.len(),
        all_digits(text),
    ensures
        digits_value(text.take(n)) <= digits_value(text),
    decreases text.len(),
{
    if n < text.len() {
        assert(text.drop_last().take(n) =~= text.take(n));
        assert(is_digit(text[text.len() - 1]));
        lemma_value_of_prefix(text.drop_last(), n);
    } else {
        assert(text.take(n) =~= text);
    }
}

/// The number that `text` stands for, if it stands for one.
pub fn parse_u64(text: &str) -> (value: Option<u64>)
    ensures
        value == parsed_u64(text@),
{
    let t = chars_of(text);
    let start: usize = if t.len() > 0 && t[0] == '+' {
        1
    } else {
        0
    };
    let ghost body = unsigned_body(text@);
    assert(body =~= t@.subrange(start as int, t.len() as int));
    if start == t.len() {
        return None;
    }
    let mut acc: u64 = 0;
    let mut i: usize = start;
    while i < t.len()
        invariant
            start <= i <= t.len(),
            body == unsigned_body(text@),
            body == t@.subrange(start as int, t.len() as int),
            all_digits(body.take(i - start)),
            acc == digits_value(body.take(i - start)),
        decreases t.len() - i,
    {
        let c = t[i];
        assert(body[i - start] == c);
        if !('0' <= c && c <= '9') {
            assert(!is_digit(body[i - start]));
            return None;
        }
        let d: u64 = ((c as u8) - ('0' as u8)) as u64;
        let ghost next = body.take(i - start + 1);
        assert(next.drop_last() =~= body.take(i - start));
        assert(next.last() == c);
        assert(all_digits(next)) by {
            assert forall|k: int| 0 <= k < next.len() implies is_digit(#[trigger] next[k]) by {
                if k < next.len() - 1 {
                    assert(body.take(i - start)[k] == next[k]);
                }
            }
        }
        if acc > (u64::MAX - d) / 10 {
            proof {
                assert(digits_value(next) == acc * 10 + d);
                assert(digits_value(next) > u64::MAX);
                if all_digits(body) {
                    lemma_value_of_prefix(body, i - start + 1);
                    assert(digits_value(body) > u64::MAX);
                }
                assert(parsed_u64(text@) is None);
            }
            return None;
        }
        assert(digits_value(next) == acc * 10 + d);
        acc = acc * 10 + d;
        i += 1;
    }
    assert(body.take(i - start) =~= body);
    Some(acc)
}

proof fn lemma_decimal_digits(n: nat)
    ensures
        decimal(n).len() > 0,
        all_digits(decimal(n)),
        digits_value(decimal(n)) == n,
    decreases n,
{
    let low = (n % 10) as int;
    assert((digit_char(low) as u8) - ('0' as u8) == low);
    assert(is_digit(digit_char(low)));
    if n >= 10 {
        lemma_decimal_digits(n / 10);
        let d = decimal(n);
        assert(d.drop_last() =~= decimal(n / 10));
        assert(d.last() == digit_char(low));
        assert(digits_value(d) == digits_value(d.drop_last()) * 10 + low);
        assert forall|k: int| 0 <= k < d.len() implies is_digit(#[trigger] d[k]) by {
            if k < d.len() - 1 {
                assert(decimal(n / 10)[k] == d[k]);
            }
        }
    } else {
        assert(decimal(n).drop_last() =~= Seq::<char>::empty());
        assert(decimal(n).last() == digit_char(low));
        assert(digits_value(decimal(n)) == digits_value(decimal(n).drop_last()) * 10 + low);
    }
}

/// A number that is written with `decimal_string` is read back by
/// `parse_u64` as the same number.
pub proof fn law_decimal_round_trip(n: u64)
    ensures
        parsed_u64(decimal(n as nat)) == Some(n),
{
    lemma_decimal_digits(n as nat);
    assert(is_digit(decimal(n as nat)[0]));
}

} // verus!
