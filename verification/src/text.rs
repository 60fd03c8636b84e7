//! Decimal rendering of unsigned numbers, shared by the wire encoding and
//! the metrics report.

use vstd::prelude::*;
use vstd::std_specs::iter::IteratorSpec;
use vstd::string::{StrSliceExecFns, StringExecFns, StringSliceAdditionalSpecFns};

verus! {

/// The character of the decimal digit `d`.
pub open spec fn digit_char(d: nat) -> char {
    if d == 0 {
        '0'
    } else if d == 1 {
        '1'
    } else if d == 2 {
        '2'
    } else if d == 3 {
        '3'
    } else if d == 4 {
        '4'
    } else if d == 5 {
        '5'
    } else if d == 6 {
        '6'
    } else if d == 7 {
        '7'
    } else if d == 8 {
        '8'
    } else {
        '9'
    }
}

/// The decimal numeral of `n`, without sign, padding or leading zeros.
pub open spec fn decimal(n: nat) -> Seq<char>
    decreases n,
{
    if n < 10 {
        seq![digit_char(n)]
    } else {
        decimal(n / 10).push(digit_char(n % 10))
    }
}

/// The digits of `n` written in base eight, without leading zeros.
pub open spec fn octal(n: nat) -> Seq<char>
    decreases n,
{
    if n < 8 {
        seq![digit_char(n)]
    } else {
        octal(n / 8).push(digit_char(n % 8))
    }
}

fn digit_str(d: u64) -> (s: &'static str)
    requires
        d < 10,
    ensures
        s@ == seq![digit_char(d as nat)],
{
    proof {
        reveal_strlit("0");
        reveal_strlit("1");
        reveal_strlit("2");
        reveal_strlit("3");
        reveal_strlit("4");
        reveal_strlit("5");
        reveal_strlit("6");
        reveal_strlit("7");
        reveal_strlit("8");
        reveal_strlit("9");
    }
    let s = if d == 0 {
        "0"
    } else if d == 1 {
        "1"
    } else if d == 2 {
        "2"
    } else if d == 3 {
        "3"
    } else if d == 4 {
        "4"
    } else if d == 5 {
        "5"
    } else if d == 6 {
        "6"
    } else if d == 7 {
        "7"
    } else if d == 8 {
        "8"
    } else {
        "9"
    };
    assert(s@ =~= seq![digit_char(d as nat)]);
    s
}

/// Appends the decimal numeral of `n` to `out`.
pub fn push_decimal(out: &mut String, n: u64)
    ensures
        final(out)@ == old(out)@ + decimal(n as nat),
    decreases n,
{
    if n >= 10 {
        push_decimal(out, n / 10);
    }
    out.append(digit_str(n % 10));
    assert(out@ =~= old(out)@ + decimal(n as nat));
}

/// Appends the base-eight digits of `n` to `out`.
pub fn push_octal(out: &mut String, n: u64)
    ensures
        final(out)@ == old(out)@ + octal(n as nat),
    decreases n,
{
    if n >= 8 {
        push_octal(out, n / 8);
    }
    out.append(digit_str(n % 8));
    assert(out@ =~= old(out)@ + octal(n as nat));
}

/// The decimal numeral of `n` as an owned string.
pub fn decimal_string(n: u64) -> (s: String)
    ensures
        s@ == decimal(n as nat),
{
    let mut s = String::new();
    push_decimal(&mut s, n);
    assert(s@ =~= decimal(n as nat));
    s
}

/// Why a text is not the numeral of a 32-bit number.
#[derive(Debug, Clone, Copy, PartialEq, Eq, Structural)]
pub enum NumberError {
    /// The text is empty.
    Empty,
    /// The text holds something other than digits, or no digit at all.
    InvalidDigit,
    /// The number is too large.
    Overflow,
}

impl NumberError {
    pub open spec fn text(self) -> Seq<char> {
        match self {
            NumberError::Empty => "cannot parse integer from empty string"@,
            NumberError::InvalidDigit => "invalid digit found in string"@,
            NumberError::Overflow => "number too large to fit in target type"@,
        }
    }

    /// The text the error is reported with.
    pub fn message(&self) -> (out: String)
        ensures
            out@ == self.text(),
    {
        match self {
            NumberError::Empty => String::from_str("cannot parse integer from empty string"),
            NumberError::InvalidDigit => String::from_str("invalid digit found in string"),
            NumberError::Overflow => String::from_str("number too large to fit in target type"),
        }
    }
}

/// Whether the byte is an ASCII digit of the base `radix`, which is at
/// most ten.
pub open spec fn is_digit(byte: u8, radix: nat) -> bool {
    48 <= byte < 48 + radix
}

/// The number that the digits of base `radix` stand for, read from the
/// left: the first byte that is no digit, or the first digit with which
/// the number passes `u32::MAX`, ends the reading with an error.
pub open spec fn number(digits: Seq<u8>, radix: nat) -> Result<nat, NumberError>
    decreases digits.len(),
{
    if digits.len() == 0 {
        Ok(0)
    } else {
        match number(digits.drop_last(), radix) {
            Err(e) => Err(e),
            Ok(n) => if !is_digit(digits.last(), radix) {
                Err(NumberError::InvalidDigit)
            } else if n * radix + (digits.last() - 48) > u32::MAX {
                Err(NumberError::Overflow)
            } else {
                Ok((n * radix + (digits.last() - 48)) as nat)
            },
        }
    }
}

/// The 32-bit number that a text stands for in base `radix`: digits, with
/// or without a plus sign in front of them.
pub open spec fn parsed(bytes: Seq<u8>, radix: nat) -> Result<u32, NumberError> {
    if bytes.len() == 0 {
        Err(NumberError::Empty)
    } else {
        let digits = if bytes[0] == 43 {
            bytes.drop_first()
        } else {
            bytes
        };
        if digits.len() == 0 {
            Err(NumberError::InvalidDigit)
        } else {
            match number(digits, radix) {
                Ok(n) => Ok(n as u32),
                Err(e) => Err(e),
            }
        }
    }
}

/// Reads a 32-bit number in base `radix` from `text`.
pub fn parse_u32(text: &str, radix: u32) -> (out: Result<u32, NumberError>)
    requires
        2 <= radix <= 10,
    ensures
        out == parsed(text.spec_bytes(), radix as nat),
{
    let bytes = text.as_bytes();
    if bytes.len() == 0 {
        return Err(NumberError::Empty);
    }
    let start: usize = if bytes[0] == 43 {
        1
    } else {
        0
    };
    if start == bytes.len() {
        assert(bytes@.drop_first().len() == 0);
        return Err(NumberError::InvalidDigit);
    }
    let ghost digits = if bytes@[0] == 43 {
        bytes@.drop_first()
    } else {
        bytes@
    };
    let mut value: u32 = 0;
    let mut i: usize = start;
    assert(digits.subrange(0, 0) =~= Seq::<u8>::empty());
    while i < bytes.len()
        invariant
            start <= i <= bytes.len(),
            2 <= radix <= 10,
            bytes@ == text.spec_bytes(),
            bytes@.len() > 0,
            digits == if bytes@[0] == 43 {
                bytes@.drop_first()
            } else {
                bytes@
            },
            digits.len() > 0,
            digits.len() == bytes.len() - start,
            forall|k: int| 0 <= k < digits.len() ==> digits[k] == bytes@[k + start],
            number(digits.subrange(0, i - start), radix as nat) == Ok::<nat, NumberError>(
                value as nat,
            ),
        decreases bytes.len() - i,
    {
        let byte = bytes[i];
        proof {
            let seen = digits.subrange(0, i - start);
            let more = digits.subrange(0, i - start + 1);
            assert(more.drop_last() =~= seen);
            assert(more.last() == byte);
            lemma_number_stays_failed(digits, (i - start + 1) as int, radix as nat);
        }
        if byte < 48 || byte as u32 >= 48 + radix {
            assert(number(digits.subrange(0, i - start + 1), radix as nat) == Err::<
                nat,
                NumberError,
            >(NumberError::InvalidDigit));
            return Err(NumberError::InvalidDigit);
        }
        let digit = (byte - 48) as u32;
        let next = match value.checked_mul(radix) {
            Some(scaled) => scaled.checked_add(digit),
            None => None,
        };
        match next {
            Some(n) => {
                value = n;
            },
            None => {
                assert(value * radix + digit > u32::MAX) by (nonlinear_arith)
                    requires
                        value * radix > u32::MAX || value * radix + digit > u32::MAX,
                        digit >= 0,
                ;
                assert(number(digits.subrange(0, i - start + 1), radix as nat) == Err::<
                    nat,
                    NumberError,
                >(NumberError::Overflow));
                return Err(NumberError::Overflow);
            },
        }
        i += 1;
    }
    assert(digits.subrange(0, i - start) =~= digits);
    Ok(value)
}

/// Once the reading of a number has failed, it stays failed however many
/// bytes follow.
pub proof fn lemma_number_stays_failed(digits: Seq<u8>, upto: int, radix: nat)
    requires
        0 <= upto <= digits.len(),
    ensures
        number(digits.subrange(0, upto), radix) is Err ==> number(digits, radix) == number(
            digits.subrange(0, upto),
            radix,
        ),
    decreases digits.len() - upto,
{
    if upto < digits.len() {
        if number(digits.subrange(0, upto), radix) is Err {
            let longer = digits.subrange(0, upto + 1);
            assert(longer.drop_last() =~= digits.subrange(0, upto));
            lemma_number_stays_failed(digits, upto + 1, radix);
        }
    } else {
        assert(digits.subrange(0, upto) =~= digits);
    }
}

/// Whether `text` begins with `prefix`.
pub fn starts_with(text: &str, prefix: &str) -> (yes: bool)
    ensures
        yes == prefix@.is_prefix_of(text@),
{
    broadcast use vstd::string::group_string_axioms;

    let mut rest = text.chars();
    let mut wanted = prefix.chars();
    let ghost mut seen: int = 0;
    assert(rest.remaining() =~= text@.subrange(0, text@.len() as int));
    assert(wanted.remaining() =~= prefix@.subrange(0, prefix@.len() as int));
    assert(prefix@.subrange(0, 0) =~= text@.subrange(0, 0));
    loop
        invariant
            0 <= seen <= prefix@.len(),
            seen <= text@.len(),
            rest.remaining() == text@.subrange(seen, text@.len() as int),
            wanted.remaining() == prefix@.subrange(seen, prefix@.len() as int),
            prefix@.subrange(0, seen) == text@.subrange(0, seen),
            rest.obeys_prophetic_iter_laws(),
            wanted.obeys_prophetic_iter_laws(),
            wanted.decrease() is Some,
        decreases wanted.decrease()->0,
    {
        match wanted.next() {
            None => {
                assert(seen == prefix@.len());
                return true;
            },
            Some(c) => {
                assert(c == prefix@[seen]) by {
                    assert(prefix@.subrange(seen, prefix@.len() as int)[0] == prefix@[seen]);
                }
                match rest.next() {
                    Some(d) => {
                        assert(d == text@[seen]) by {
                            assert(text@.subrange(seen, text@.len() as int)[0] == text@[seen]);
                        }
                        if c != d {
                            assert(!prefix@.is_prefix_of(text@)) by {
                                if prefix@.is_prefix_of(text@) {
                                    assert(text@.subrange(0, prefix@.len() as int)[seen]
                                        == prefix@[seen]);
                                }
                            }
                            return false;
                        }
                        proof {
                            assert(prefix@.subrange(0, seen + 1) =~= prefix@.subrange(0, seen).push(
                                c,
                            ));
                            assert(text@.subrange(0, seen + 1) =~= text@.subrange(0, seen).push(d));
                            assert(rest.remaining() =~= text@.subrange(
                                seen + 1,
                                text@.len() as int,
                            ));
                            assert(wanted.remaining() =~= prefix@.subrange(
                                seen + 1,
                                prefix@.len() as int,
                            ));
                            seen = seen + 1;
                        }
                    },
                    None => {
                        assert(seen == text@.len());
                        return false;
                    },
                }
            },
        }
    }
}

/// The last character of a text, if it has one.
pub fn last_char(text: &str) -> (last: Option<char>)
    ensures
        last == if text@.len() > 0 {
            Some(text@.last())
        } else {
            None
        },
{
    broadcast use vstd::string::group_string_axioms;

    let mut rest = text.chars();
    let mut last: Option<char> = None;
    let ghost mut seen: int = 0;
    assert(rest.remaining() =~= text@.subrange(0, text@.len() as int));
    loop
        invariant
            0 <= seen <= text@.len(),
            rest.remaining() == text@.subrange(seen, text@.len() as int),
            last == if seen > 0 {
                Some(text@[seen - 1])
            } else {
                None
            },
            rest.obeys_prophetic_iter_laws(),
            rest.decrease() is Some,
        decreases rest.decrease()->0,
    {
        match rest.next() {
            Some(c) => {
                proof {
                    assert(text@.subrange(seen, text@.len() as int)[0] == text@[seen]);
                    assert(rest.remaining() =~= text@.subrange(seen + 1, text@.len() as int));
                    seen = seen + 1;
                }
                last = Some(c);
            },
            None => {
                assert(seen == text@.len());
                return last;
            },
        }
    }
}

/// The characters of a text.
pub fn chars_of(text: &str) -> (chars: Vec<char>)
    ensures
        chars@ == text@,
{
    broadcast use vstd::string::group_string_axioms;

    let mut rest = text.chars();
    let mut chars: Vec<char> = Vec::new();
    assert(chars@ + rest.remaining() =~= text@);
    loop
        invariant
            chars@ + rest.remaining() == text@,
            rest.obeys_prophetic_iter_laws(),
            rest.decrease() is Some,
        decreases rest.decrease()->0,
    {
        match rest.next() {
            Some(c) => {
                chars.push(c);
                assert(chars@ + rest.remaining() =~= text@);
            },
            None => {
                assert(chars@ =~= text@);
                return chars;
            },
        }
    }
}

/// Whether `needle` occurs in `haystack`.
pub open spec fn occurs_in(needle: Seq<char>, haystack: Seq<char>) -> bool {
    exists|at: int|
        0 <= at <= haystack.len() - needle.len() && #[trigger] haystack.subrange(
            at,
            at + needle.len(),
        ) == needle
}

fn occurs_at(haystack: &Vec<char>, needle: &Vec<char>, at: usize) -> (yes: bool)
    requires
        at + needle@.len() <= haystack@.len(),
    ensures
        yes == (haystack@.subrange(at as int, at + needle@.len()) == needle@),
{
    let len = haystack.len();
    let mut i: usize = 0;
    while i < needle.len()
        invariant
            i <= needle@.len(),
            len == haystack@.len(),
            at + needle@.len() <= haystack@.len(),
            forall|k: int| 0 <= k < i ==> haystack@[at + k] == needle@[k],
        decreases needle.len() - i,
    {
        if haystack[at + i] != needle[i] {
            assert(haystack@.subrange(at as int, at + needle@.len())[i as int] != needle@[i as int]);
            return false;
        }
        i += 1;
    }
    assert(haystack@.subrange(at as int, at + needle@.len()) =~= needle@);
    true
}

/// Whether `needle` occurs in `haystack`.
pub fn contains(haystack: &str, needle: &str) -> (found: bool)
    ensures
        found == occurs_in(needle@, haystack@),
{
    let hay = chars_of(haystack);
    let wanted = chars_of(needle);
    if wanted.len() > hay.len() {
        return false;
    }
    let last = hay.len() - wanted.len();
    let mut at: usize = 0;
    loop
        invariant
            at <= last,
            hay@ == haystack@,
            wanted@ == needle@,
            last == hay@.len() - wanted@.len(),
            forall|a: int|
                0 <= a < at ==> #[trigger] hay@.subrange(a, a + wanted@.len()) != wanted@,
        decreases last - at,
    {
        if occurs_at(&hay, &wanted, at) {
            return true;
        }
        if at == last {
            return false;
        }
        at += 1;
    }
}

/// What follows `prefix` in `text`, where `text` begins with it.
pub open spec fn after_prefix(text: Seq<char>, prefix: Seq<char>) -> Option<Seq<char>> {
    if prefix.is_prefix_of(text) {
        Some(text.subrange(prefix.len() as int, text.len() as int))
    } else {
        None
    }
}

/// What follows `prefix` in `text`, where `text` begins with it.
pub fn strip_prefix<'a>(text: &'a str, prefix: &str) -> (rest: Option<&'a str>)
    ensures
        match after_prefix(text@, prefix@) {
            Some(expected) => rest is Some && rest->Some_0@ == expected,
            None => rest is None,
        },
{
    if starts_with(text, prefix) {
        Some(text.substring_char(prefix.unicode_len(), text.unicode_len()))
    } else {
        None
    }
}

/// Whether the character occurs in the text.
pub fn has_char(text: &str, wanted: char) -> (found: bool)
    ensures
        found == text@.contains(wanted),
{
    broadcast use vstd::string::group_string_axioms;

    let mut rest = text.chars();
    let ghost mut seen: int = 0;
    assert(rest.remaining() =~= text@.subrange(0, text@.len() as int));
    loop
        invariant
            0 <= seen <= text@.len(),
            rest.remaining() == text@.subrange(seen, text@.len() as int),
            forall|k: int| 0 <= k < seen ==> text@[k] != wanted,
            rest.obeys_prophetic_iter_laws(),
            rest.decrease() is Some,
        decreases rest.decrease()->0,
    {
        match rest.next() {
            Some(c) => {
                proof {
                    assert(text@.subrange(seen, text@.len() as int)[0] == text@[seen]);
                    assert(rest.remaining() =~= text@.subrange(seen + 1, text@.len() as int));
                }
                if c == wanted {
                    return true;
                }
                proof {
                    seen = seen + 1;
                }
            },
            None => {
                assert(seen == text@.len());
                return false;
            },
        }
    }
}

/// Whether two texts are the same.
pub fn same_text(a: &str, b: &str) -> (same: bool)
    ensures
        same == (a@ == b@),
{
    String::from_str(a) == String::from_str(b)
}

} // verus!
