//! Strings as sequences of characters.

use vstd::prelude::*;
use vstd::utf8::{decode_utf8, valid_utf8};

verus! {

// ---- What the operations mean --------------------------------------------

/// Whether `part` stands in `text` from position `at` on.
pub open spec fn stands_at(text: Seq<char>, part: Seq<char>, at: int) -> bool {
    &&& 0 <= at
    &&& at + part.len() <= text.len()
    &&& text.subrange(at, at + part.len()) =~= part
}

/// Whether `part` stands somewhere in `text`.
pub open spec fn has_part(text: Seq<char>, part: Seq<char>) -> bool {
    exists|at: int| #[trigger] stands_at(text, part, at)
}

/// The characters of each string.
pub open spec fn texts(strings: Seq<String>) -> Seq<Seq<char>> {
    Seq::new(strings.len(), |i: int| strings[i]@)
}

/// The parts of `text` between the separators; one more than there are
/// separators.
pub open spec fn parts(text: Seq<char>, separator: char) -> Seq<Seq<char>>
    decreases text.len(),
{
    if text.contains(separator) {
        let end = text.index_of_first(separator).unwrap();
        proof {
            text.index_of_first_ensures(separator);
        }
        seq![text.take(end)] + parts(text.skip(end + 1), separator)
    } else {
        seq![text]
    }
}

/// The line without the carriage return that ends it, if one does.
pub open spec fn without_return(line: Seq<char>) -> Seq<char> {
    if line.len() > 0 && line.last() == '\r' {
        line.drop_last()
    } else {
        line
    }
}

/// The lines of `text`. A line ends in a line feed, or a carriage return and a
/// line feed; the last one may do without, and is then kept as it is.
pub open spec fn lines_of(text: Seq<char>) -> Seq<Seq<char>> {
    let rows = parts(text, '\n');
    let ended = Seq::new((rows.len() - 1) as nat, |i: int| without_return(rows[i]));
    if rows.last().len() == 0 {
        ended
    } else {
        ended.push(rows.last())
    }
}

/// Whether the character has Unicode's property `White_Space`.
pub open spec fn is_white(c: char) -> bool {
    let code = c as u32;
    ||| 0x9 <= code <= 0xd
    ||| code == 0x20
    ||| code == 0x85
    ||| code == 0xa0
    ||| code == 0x1680
    ||| 0x2000 <= code <= 0x200a
    ||| code == 0x2028
    ||| code == 0x2029
    ||| code == 0x202f
    ||| code == 0x205f
    ||| code == 0x3000
}

/// Whether `trimmed` is `text` without the white space at its end.
pub open spec fn is_trimmed(text: Seq<char>, trimmed: Seq<char>) -> bool {
    &&& trimmed.len() <= text.len()
    &&& trimmed =~= text.take(trimmed.len() as int)
    &&& forall|i: int| trimmed.len() <= i < text.len() ==> is_white(#[trigger] text[i])
    &&& trimmed.len() > 0 ==> !is_white(trimmed.last())
}

/// Whether the character is a decimal digit.
pub open spec fn is_digit(c: char) -> bool {
    '0' <= c <= '9'
}

/// The number that the decimal digits write.
pub open spec fn number(digits: Seq<char>) -> nat
    decreases digits.len(),
{
    if digits.len() == 0 {
        0
    } else {
        (number(digits.drop_last()) * 10 + (digits.last() as u32 - '0' as u32)) as nat
    }
}

/// The integer that `text` writes: an optional sign and then decimal digits,
/// at least one, whose value fits 32 bits.
pub open spec fn integer_of(text: Seq<char>) -> Option<i32> {
    let signed = text.len() > 0 && (text[0] == '-' || text[0] == '+');
    let negative = signed && text[0] == '-';
    let digits = if signed {
        text.skip(1)
    } else {
        text
    };
    let value = if negative {
        -number(digits)
    } else {
        number(digits) as int
    };
    if digits.len() > 0 && (forall|i: int| 0 <= i < digits.len() ==> is_digit(#[trigger] digits[i]))
        && i32::MIN <= value <= i32::MAX {
        Some(value as i32)
    } else {
        None
    }
}

/// The decimal digits of `n`, without leading zeros.
pub open spec fn decimal_of(n: nat) -> Seq<char>
    decreases n,
{
    let digit = ('0' as u32 + n % 10) as char;
    if n < 10 {
        seq![digit]
    } else {
        decimal_of(n / 10).push(digit)
    }
}

/// The characters that `String::from_utf8_lossy` reads out of the bytes.
pub uninterp spec fn lossy_chars(bytes: Seq<u8>) -> Seq<char>;

// ---- The operations ------------------------------------------------------

/// Whether two strings hold the same characters.
pub fn same(a: &str, b: &str) -> (r: bool)
    ensures
        r == (a@ == b@),
{
    a.to_owned() == b.to_owned()
}

/// `str::contains` with a string as the pattern: whether the pattern matches a
/// part of the text.
#[verifier::external_body]
pub(crate) fn contains(text: &str, part: &str) -> (r: bool)
    ensures
        r == has_part(text@, part@),
{
    text.contains(part)
}

/// `str::split` with a character as the pattern: the parts of the text between
/// the separators, in order.
#[verifier::external_body]
pub(crate) fn split(text: &str, separator: char) -> (r: Vec<String>)
    ensures
        texts(r@) == parts(text@, separator),
{
    text.split(separator).map(str::to_owned).collect()
}

/// `str::lines`: the lines of the text, in order, without their line endings.
#[verifier::external_body]
pub(crate) fn lines(text: &str) -> (r: Vec<String>)
    ensures
        texts(r@) == lines_of(text@),
{
    text.lines().map(str::to_owned).collect()
}

/// `str::trim_end`: the text without the white space at its end.
#[verifier::external_body]
pub(crate) fn trim_end(text: &str) -> (r: String)
    ensures
        is_trimmed(text@, r@),
{
    text.trim_end().to_owned()
}

/// `str::parse` to an `i32`: the integer that the text writes, if it writes one
/// that fits.
#[verifier::external_body]
pub(crate) fn parse_i32(text: &str) -> (r: Option<i32>)
    ensures
        r == integer_of(text@),
{
    text.parse::<i32>().ok()
}

/// `u64::to_string`: the number in decimal.
#[verifier::external_body]
pub(crate) fn decimal(n: u64) -> (r: String)
    ensures
        r@ == decimal_of(n as nat),
{
    n.to_string()
}

/// `String::from_utf8_lossy`: the text that the bytes encode. Bytes that encode
/// none are replaced; how is left to the name.
#[verifier::external_body]
pub(crate) fn from_utf8_lossy(bytes: &[u8]) -> (r: String)
    ensures
        r@ == lossy_chars(bytes@),
        valid_utf8(bytes@) ==> r@ == decode_utf8(bytes@),
{
    String::from_utf8_lossy(bytes).into_owned()
}

// ---- How they go together ------------------------------------------------

proof fn decimal_is_digits(n: nat)
    ensures
        decimal_of(n).len() > 0,
        forall|i: int| 0 <= i < decimal_of(n).len() ==> is_digit(#[trigger] decimal_of(n)[i]),
        number(decimal_of(n)) == n,
    decreases n,
{
    let digits = decimal_of(n);
    let digit = ('0' as u32 + n % 10) as char;
    assert(is_digit(digit) && digit as u32 - '0' as u32 == n % 10);
    if n < 10 {
        assert(digits.drop_last().len() == 0);
        assert(number(digits.drop_last()) == 0);
    } else {
        decimal_is_digits(n / 10);
        assert(digits.drop_last() == decimal_of(n / 10));
        assert forall|i: int| 0 <= i < digits.len() implies is_digit(#[trigger] digits[i]) by {
            if i < digits.len() - 1 {
                assert(digits[i] == decimal_of(n / 10)[i]);
            }
        }
    }
}

/// A number that is written in decimal is read back as it was, where it fits.
pub proof fn decimal_reads_back(n: nat)
    ensures
        integer_of(decimal_of(n)) == if n <= i32::MAX {
            Some(n as i32)
        } else {
            None
        },
{
    decimal_is_digits(n);
    assert(is_digit(decimal_of(n)[0]));
}

/// A sign before a number in decimal is read as such.
pub proof fn sign_is_read(n: nat)
    ensures
        integer_of(seq!['-'] + decimal_of(n)) == if n <= 0x8000_0000 {
            Some(-n as i32)
        } else {
            None
        },
        integer_of(seq!['+'] + decimal_of(n)) == integer_of(decimal_of(n)),
{
    decimal_is_digits(n);
    decimal_reads_back(n);
    assert((seq!['-'] + decimal_of(n)).skip(1) == decimal_of(n));
    assert((seq!['+'] + decimal_of(n)).skip(1) == decimal_of(n));
}

/// A part is found wherever it stands.
pub proof fn part_is_found_anywhere(before: Seq<char>, part: Seq<char>, after: Seq<char>)
    ensures
        has_part(before + part + after, part),
{
    assert(stands_at(before + part + after, part, before.len() as int));
}

/// A part that is found stands between what comes before it and what comes after.
pub proof fn found_part_stands_between(text: Seq<char>, part: Seq<char>)
    requires
        has_part(text, part),
    ensures
        exists|before: Seq<char>, after: Seq<char>| text == #[trigger] (before + part + after),
{
    let at = choose|at: int| #[trigger] stands_at(text, part, at);
    let before = text.take(at);
    let after = text.skip(at + part.len());
    assert(text == before + part + after) by {
        assert(text.subrange(at, at + part.len()) == part);
        assert forall|i: int| at <= i < at + part.len() implies text[i] == part[i - at] by {
            assert(text.subrange(at, at + part.len())[i - at] == text[i]);
        }
    }
}

/// A part that stands in a text stands in every longer text that holds this one.
pub proof fn part_is_kept(before: Seq<char>, text: Seq<char>, after: Seq<char>, part: Seq<char>)
    requires
        has_part(text, part),
    ensures
        has_part(before + text + after, part),
{
    let at = choose|at: int| #[trigger] stands_at(text, part, at);
    let all = before + text + after;
    assert(all.subrange(before.len() + at, before.len() + at + part.len()) == text.subrange(
        at,
        at + part.len(),
    ));
    assert(stands_at(all, part, before.len() + at));
}

/// No part holds the separator.
pub proof fn parts_hold_no_separator(text: Seq<char>, separator: char)
    ensures
        parts(text, separator).len() > 0,
        forall|i: int|
            0 <= i < parts(text, separator).len() ==> !(#[trigger] parts(
                text,
                separator,
            )[i]).contains(separator),
    decreases text.len(),
{
    if text.contains(separator) {
        text.index_of_first_ensures(separator);
        let end = text.index_of_first(separator).unwrap();
        let rest = text.skip(end + 1);
        parts_hold_no_separator(rest, separator);
        let all = parts(text, separator);
        assert forall|i: int| 0 <= i < all.len() implies !(#[trigger] all[i]).contains(
            separator,
        ) by {
            if i > 0 {
                assert(all[i] == parts(rest, separator)[i - 1]);
            }
        }
    }
}

/// A separator divides a text: its parts are those of what stands before, followed by
/// those of what stands after.
pub proof fn separator_divides(before: Seq<char>, separator: char, after: Seq<char>)
    ensures
        parts(before + seq![separator] + after, separator) == parts(before, separator) + parts(
            after,
            separator,
        ),
    decreases before.len(),
{
    let text = before + seq![separator] + after;
    assert(text[before.len() as int] == separator);
    text.index_of_first_ensures(separator);
    let end = text.index_of_first(separator).unwrap();
    if before.contains(separator) {
        before.index_of_first_ensures(separator);
        let first = before.index_of_first(separator).unwrap();
        assert(text[first] == separator);
        assert(end == first) by {
            if first < end {
                assert(text[first] != separator);
            } else if end < first {
                assert(before[end] == text[end]);
            }
        }
        let rest = before.skip(first + 1);
        separator_divides(rest, separator, after);
        assert(text.take(end) == before.take(first));
        assert(text.skip(end + 1) == rest + seq![separator] + after);
        assert(parts(text, separator) == seq![before.take(first)] + (parts(rest, separator) + parts(
            after,
            separator,
        )));
    } else {
        assert(end == before.len()) by {
            if end < before.len() {
                assert(before[end] == separator);
            }
        }
        assert(text.take(end) == before);
        assert(text.skip(end + 1) == after);
    }
}

/// A text without the separator is its only part.
pub proof fn undivided_text(text: Seq<char>, separator: char)
    requires
        !text.contains(separator),
    ensures
        parts(text, separator) == seq![text],
{
}

/// A line that ends is among the lines, whatever stands before and after it.
pub proof fn line_is_found_anywhere(before: Seq<char>, line: Seq<char>, after: Seq<char>)
    requires
        !line.contains('\n'),
    ensures
        lines_of(before + seq!['\n'] + line + seq!['\n'] + after).contains(without_return(line)),
        lines_of(line + seq!['\n'] + after).contains(without_return(line)),
{
    let head = before + seq!['\n'] + line;
    let text = head + seq!['\n'] + after;
    separator_divides(head, '\n', after);
    separator_divides(before, '\n', line);
    undivided_text(line, '\n');
    parts_hold_no_separator(before, '\n');
    parts_hold_no_separator(after, '\n');
    let at = parts(before, '\n').len() as int;
    assert(parts(text, '\n')[at] == line);
    assert(lines_of(text)[at] == without_return(line));
    let short = line + seq!['\n'] + after;
    separator_divides(line, '\n', after);
    assert(parts(short, '\n')[0] == line);
    assert(lines_of(short)[0] == without_return(line));
}

/// A last line that does not end is kept as it is.
pub proof fn unended_line_is_kept(before: Seq<char>, line: Seq<char>)
    requires
        line.len() > 0,
        !line.contains('\n'),
    ensures
        lines_of(before + seq!['\n'] + line).last() == line,
        lines_of(before + seq!['\n'] + line).len() > 0,
        lines_of(line) == seq![line],
{
    separator_divides(before, '\n', line);
    undivided_text(line, '\n');
    parts_hold_no_separator(before, '\n');
}

/// No line holds a line feed.
pub proof fn lines_hold_no_line_feed(text: Seq<char>)
    ensures
        forall|i: int|
            0 <= i < lines_of(text).len() ==> !(#[trigger] lines_of(text)[i]).contains('\n'),
{
    let rows = parts(text, '\n');
    parts_hold_no_separator(text, '\n');
    assert forall|i: int| 0 <= i < lines_of(text).len() implies !(#[trigger] lines_of(
        text,
    )[i]).contains('\n') by {
        assert(!rows[i].contains('\n'));
        let line = lines_of(text)[i];
        if line.contains('\n') {
            let j = choose|j: int| 0 <= j < line.len() && line[j] == '\n';
            assert(rows[i][j] == '\n');
        }
    }
}

} // verus!
