//! Comparisons of kernel symbols and source tokens, and numbers in words.

use vstd::prelude::*;
use vstd::string::{StringExecFns, StringSliceAdditionalSpecFns};

verus! {

/// Whether two byte strings are equal.
pub fn same_bytes(left: &[u8], right: &[u8]) -> (equal: bool)
    ensures
        equal == (left@ == right@),
{
    if left.len() != right.len() {
        return false;
    }
    let mut i: usize = 0;
    while i < left.len()
        invariant
            i <= left@.len(),
            left@.len() == right@.len(),
            forall|j: int| 0 <= j < i ==> left@[j] == right@[j],
        decreases left@.len() - i,
    {
        if left[i] != right[i] {
            assert(left@[i as int] != right@[i as int]);
            return false;
        }
        i = i + 1;
    }
    assert(left@ =~= right@);
    true
}

/// Texts with the same bytes are the same text.
pub proof fn text_is_its_bytes(left: Seq<char>, right: Seq<char>)
    requires
        vstd::utf8::encode_utf8(left) == vstd::utf8::encode_utf8(right),
    ensures
        left == right,
{
    vstd::utf8::encode_utf8_decode_utf8(left);
    vstd::utf8::encode_utf8_decode_utf8(right);
}

/// Whether two texts are equal.
pub fn same_text(left: &str, right: &str) -> (equal: bool)
    ensures
        equal == (left@ == right@),
{
    let equal = same_bytes(left.as_bytes(), right.as_bytes());
    proof {
        if equal {
            text_is_its_bytes(left@, right@);
        }
    }
    equal
}

/// A byte string occurs in another at a position.
pub open spec fn occurs_at(text: Seq<u8>, part: Seq<u8>, at: int) -> bool {
    0 <= at && at + part.len() <= text.len() && text.subrange(at, at + part.len()) == part
}

/// A byte string occurs in another.
pub open spec fn occurs(text: Seq<u8>, part: Seq<u8>) -> bool {
    exists|at: int| occurs_at(text, part, at)
}

/// Whether a byte string occurs in another at a position.
pub fn matches_at(text: &[u8], part: &[u8], at: usize) -> (found: bool)
    requires
        at + part@.len() <= text@.len(),
    ensures
        found == occurs_at(text@, part@, at as int),
{
    let length: usize = text.len();
    let mut i: usize = 0;
    while i < part.len()
        invariant
            i <= part@.len(),
            length == text@.len(),
            at + part@.len() <= length,
            forall|j: int| 0 <= j < i ==> text@[at + j] == part@[j],
        decreases part@.len() - i,
    {
        if text[at + i] != part[i] {
            proof {
                let window = text@.subrange(at as int, at + part@.len());
                assert(window[i as int] != part@[i as int]);
            }
            return false;
        }
        i = i + 1;
    }
    assert(text@.subrange(at as int, at + part@.len()) =~= part@);
    true
}

/// Whether a byte string occurs in another.
pub fn contains_bytes(text: &[u8], part: &[u8]) -> (found: bool)
    ensures
        found == occurs(text@, part@),
{
    if part.len() > text.len() {
        return false;
    }
    let last: usize = text.len() - part.len();
    let mut at: usize = 0;
    while at <= last
        invariant
            at <= last + 1,
            last + part@.len() == text@.len(),
            text@.len() <= usize::MAX,
            forall|j: int| 0 <= j < at ==> !occurs_at(text@, part@, j),
        decreases last + 1 - at,
    {
        if matches_at(text, part, at) {
            return true;
        }
        if at == last {
            return false;
        }
        at = at + 1;
    }
    false
}

/// Whether a text occurs in another, byte by byte.
pub fn contains_text(text: &str, part: &str) -> (found: bool)
    ensures
        found == occurs(text.spec_bytes(), part.spec_bytes()),
{
    contains_bytes(text.as_bytes(), part.as_bytes())
}

/// A text without a suffix that it ends with.
pub open spec fn stripped(text: Seq<char>, suffix: Seq<char>) -> Option<Seq<char>> {
    if suffix.len() <= text.len() && text.subrange(text.len() - suffix.len(), text.len() as int)
        == suffix {
        Some(text.subrange(0, text.len() - suffix.len()))
    } else {
        None
    }
}

/// Appending a suffix and stripping it again gives back the text.
pub proof fn stripping_undoes_appending(text: Seq<char>, suffix: Seq<char>)
    ensures
        stripped(text + suffix, suffix) == Some(text),
{
    let whole = text + suffix;
    assert(whole.subrange(whole.len() - suffix.len(), whole.len() as int) =~= suffix);
    assert(whole.subrange(0, whole.len() - suffix.len()) =~= text);
}

/// Strips a suffix off a text that ends with it.
pub fn strip_text_suffix<'a>(text: &'a str, suffix: &str) -> (rest: Option<&'a str>)
    ensures
        (match rest {
            Some(rest) => Some(rest@),
            None => None::<Seq<char>>,
        }) == stripped(text@, suffix@),
{
    let length: usize = text.unicode_len();
    let tail: usize = suffix.unicode_len();
    if tail > length {
        return None;
    }
    let start: usize = length - tail;
    if same_text(text.substring_char(start, length), suffix) {
        Some(text.substring_char(0, start))
    } else {
        None
    }
}

/// The character of a digit.
pub open spec fn digit_char(digit: int) -> char {
    if digit < 10 {
        ('0' as int + digit) as char
    } else {
        ('a' as int + digit - 10) as char
    }
}

/// A number in some base, most significant digit first.
pub open spec fn digits(value: int, base: int) -> Seq<char>
    decreases value,
{
    if value < base || base < 2 {
        seq![digit_char(value)]
    } else {
        proof {
            assert(0 <= value / base < value) by (nonlinear_arith)
                requires
                    base >= 2,
                    value >= base,
            ;
        }
        digits(value / base, base).push(digit_char(value % base))
    }
}

/// A number as it is written.
pub open spec fn decimal(value: int) -> Seq<char> {
    if value < 0 {
        "-"@ + digits(-value, 10)
    } else {
        digits(value, 10)
    }
}

fn digit_text(digit: u64) -> (text: &'static str)
    requires
        digit < 16,
    ensures
        text@ == seq![digit_char(digit as int)],
{
    proof {
        reveal_strlit("0");
        reveal_strlit("1");
        reveal_strlit("2");
        reveal_strlit("3");
        reveal_strlit("4");
        reveal_strlit("5");
        reveal_strlit("6");
        reveal_strlit("7");
        reveal_strlit("8");
        reveal_strlit("9");
        reveal_strlit("a");
        reveal_strlit("b");
        reveal_strlit("c");
        reveal_strlit("d");
        reveal_strlit("e");
        reveal_strlit("f");
    }
    match digit {
        0 => "0",
        1 => "1",
        2 => "2",
        3 => "3",
        4 => "4",
        5 => "5",
        6 => "6",
        7 => "7",
        8 => "8",
        9 => "9",
        10 => "a",
        11 => "b",
        12 => "c",
        13 => "d",
        14 => "e",
        _ => "f",
    }
}

/// Appends a number in some base.
pub fn append_digits(text: &mut String, value: u64, base: u64)
    requires
        2 <= base <= 16,
    ensures
        final(text)@ == old(text)@ + digits(value as int, base as int),
    decreases value,
{
    if value < base {
        text.append(digit_text(value));
    } else {
        assert(value / base < value) by (nonlinear_arith)
            requires
                value >= base,
                base >= 2,
        ;
        append_digits(text, value / base, base);
        text.append(digit_text(value % base));
        assert(text@ =~= old(text)@ + digits(value as int, base as int));
    }
}

/// Appends a number.
pub fn append_decimal(text: &mut String, value: usize)
    ensures
        final(text)@ == old(text)@ + decimal(value as int),
{
    append_digits(text, value as u64, 10);
}

/// Appends a signed number.
pub fn append_signed(text: &mut String, value: i32)
    ensures
        final(text)@ == old(text)@ + decimal(value as int),
{
    if value < 0 {
        text.append("-");
        append_digits(text, (-(value as i64)) as u64, 10);
        assert(text@ =~= old(text)@ + decimal(value as int));
    } else {
        append_digits(text, value as u64, 10);
    }
}

} // verus!
