//! Decimal parsing of a signed 32-bit bound: an optional `+` or `-`
//! sign followed by one or more ASCII digits, rejected when the text is
//! malformed or the value falls outside the `i32` range.

use vstd::prelude::*;

verus! {

/// Why a byte string failed to parse as an `i32`.
#[derive(Clone, Copy, Debug, PartialEq, Eq, Structural)]
pub enum ParseError {
    /// The text is not an optional sign followed by at least one digit.
    Invalid,
    /// The text is well-formed but its value does not fit in an `i32`.
    OutOfRange,
}

/// Whether a byte is an ASCII decimal digit.
pub open spec fn is_digit(b: u8) -> bool {
    48 <= b && b <= 57
}

/// The numeric value of an ASCII digit byte.
pub open spec fn digit_value(b: u8) -> int {
    b - 48
}

/// Whether every byte of the sequence is an ASCII digit.
pub open spec fn all_digits(s: Seq<u8>) -> bool {
    forall|k: int| 0 <= k < s.len() ==> is_digit(s[k])
}

/// The base-10 value of a digit sequence, most significant first; the
/// empty sequence has value zero.
pub open spec fn digits_value(s: Seq<u8>) -> int
    decreases s.len(),
{
    if s.len() == 0 {
        0
    } else {
        digits_value(s.drop_last()) * 10 + digit_value(s.last())
    }
}

/// The sequence with a single leading `+` or `-` removed, if present.
pub open spec fn digits_part(s: Seq<u8>) -> Seq<u8> {
    if s.len() > 0 && (s[0] == 43 || s[0] == 45) {
        s.subrange(1, s.len() as int)
    } else {
        s
    }
}

/// Whether the sequence begins with a `-` sign.
pub open spec fn is_negative(s: Seq<u8>) -> bool {
    s.len() > 0 && s[0] == 45
}

/// Whether the sequence is a decimal integer literal: an optional sign
/// followed by one or more digits.
pub open spec fn is_int_literal(s: Seq<u8>) -> bool {
    digits_part(s).len() > 0 && all_digits(digits_part(s))
}

/// The mathematical value of a decimal integer literal.
pub open spec fn int_literal_value(s: Seq<u8>) -> int {
    if is_negative(s) {
        -digits_value(digits_part(s))
    } else {
        digits_value(digits_part(s))
    }
}

/// Whether a mathematical integer fits in an `i32`.
pub open spec fn in_i32_range(v: int) -> bool {
    i32::MIN <= v && v <= i32::MAX
}

/// Extending a digit prefix by one digit multiplies its value by ten
/// and adds the new digit.
proof fn lemma_digits_value_step(s: Seq<u8>, a: int, i: int)
    requires
        0 <= a <= i < s.len(),
    ensures
        digits_value(s.subrange(a, i + 1)) == digits_value(s.subrange(a, i)) * 10 + digit_value(
            s[i],
        ),
{
    let t = s.subrange(a, i + 1);
    assert(t.drop_last() =~= s.subrange(a, i));
    assert(t.last() == s[i]);
}

/// Parses a decimal `i32`: an optional `+` or `-` sign followed by one
/// or more ASCII digits. Returns exactly the literal's value when it
/// fits in an `i32`, `Invalid` for malformed text, and `OutOfRange` for
/// a well-formed literal outside the `i32` range.
pub fn parse_i32(s: &[u8]) -> (r: Result<i32, ParseError>)
    ensures
        !is_int_literal(s@) ==> r == Err::<i32, ParseError>(ParseError::Invalid),
        is_int_literal(s@) && !in_i32_range(int_literal_value(s@)) ==> r == Err::<
            i32,
            ParseError,
        >(ParseError::OutOfRange),
        is_int_literal(s@) && in_i32_range(int_literal_value(s@)) ==> (r matches Ok(v) && v
            == int_literal_value(s@)),
{
    let n: usize = s.len();
    let mut start: usize = 0;
    let mut negative: bool = false;
    if n > 0 && (s[0] == 43 || s[0] == 45) {
        negative = s[0] == 45;
        start = 1;
    }
    if start >= n {
        // no digits at all
        return Err(ParseError::Invalid);
    }
    let ghost digits: Seq<u8> = digits_part(s@);
    proof {
        assert(digits =~= s@.subrange(start as int, n as int));
    }
    let mut acc: u64 = 0;
    let mut i: usize = start;
    while i < n
        invariant
            n == s@.len(),
            start <= i <= n,
            start < n,
            digits == digits_part(s@),
            digits =~= s@.subrange(start as int, n as int),
            negative == is_negative(s@),
            forall|k: int| start <= k < i ==> is_digit(s@[k]),
            (digits_value(s@.subrange(start as int, i as int)) <= 2147483648 && acc
                == digits_value(s@.subrange(start as int, i as int))) || (digits_value(
                s@.subrange(start as int, i as int),
            ) > 2147483648 && acc > 2147483648),
        decreases n - i,
    {
        let b = s[i];
        if b < 48 || b > 57 {
            proof {
                assert(digits[i - start] == s@[i as int]);
                assert(!all_digits(digits));
            }
            return Err(ParseError::Invalid);
        }
        proof {
            lemma_digits_value_step(s@, start as int, i as int);
        }
        if acc <= 2147483648 {
            acc = acc * 10 + (b - 48) as u64;
        }
        i = i + 1;
    }
    proof {
        assert(s@.subrange(start as int, i as int) =~= digits);
        assert(all_digits(digits));
        assert(is_int_literal(s@));
    }
    if negative {
        if acc <= 2147483648 {
            let v: i64 = -(acc as i64);
            Ok(v as i32)
        } else {
            Err(ParseError::OutOfRange)
        }
    } else {
        if acc <= 2147483647 {
            Ok(acc as i32)
        } else {
            Err(ParseError::OutOfRange)
        }
    }
}

} // verus!
