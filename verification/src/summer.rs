//! The bounded summation: iterate `i` from 0 up to an exclusive bound,
//! adding `i` to an accumulator, and reset the accumulator to zero
//! immediately whenever an addition pushes it above one billion. The
//! final accumulator value is the program's output.

use vstd::prelude::*;
use crate::parse::in_i32_range;
use crate::parse::int_literal_value;
use crate::parse::is_int_literal;
use crate::parse::parse_i32;

verus! {

/// Why a run of the summer produced no output.
#[derive(Clone, Copy, Debug, PartialEq, Eq, Structural)]
pub enum SummerError {
    /// No bound argument was supplied.
    MissingArgument,
    /// The bound argument is not a decimal integer that fits in an `i32`.
    ParseFailure,
}

/// The accumulator after iterating `i` over `0..last`: each step adds
/// `i`, then resets to zero if the result exceeds one billion. A bound
/// of zero or less performs no iterations and leaves zero.
pub open spec fn spec_bounded_sum(last: int) -> int
    decreases last,
{
    if last <= 0 {
        0
    } else {
        let s: int = spec_bounded_sum(last - 1) + (last - 1);
        if s > 1000000000 {
            0
        } else {
            s
        }
    }
}

/// The accumulator always lies between zero and one billion: every
/// value above the threshold is replaced by zero at once.
pub proof fn lemma_bounded_sum_range(last: int)
    ensures
        0 <= spec_bounded_sum(last) <= 1000000000,
    decreases last,
{
    if last > 0 {
        lemma_bounded_sum_range(last - 1);
    }
}

/// The running sum over `0..last` with the reset-above-one-billion rule,
/// computed iteratively. Total: a bound of zero or less yields zero.
pub fn bounded_sum(last: i32) -> (r: i32)
    ensures
        r == spec_bounded_sum(last as int),
{
    let mut sum: i64 = 0;
    let mut i: i32 = 0;
    if last <= 0 {
        return 0;
    }
    while i < last
        invariant
            0 <= i <= last,
            sum == spec_bounded_sum(i as int),
            0 <= sum <= 1000000000,
        decreases last - i,
    {
        let s: i64 = sum + i as i64;
        if s > 1000000000 {
            sum = 0;
        } else {
            sum = s;
        }
        i = i + 1;
    }
    sum as i32
}

/// The summer's whole outcome as a function of its optional argument:
/// the bounded sum of a well-formed in-range bound, and otherwise the
/// error that names what was wrong with the argument.
pub open spec fn summer_outcome(arg: Option<Seq<u8>>) -> Result<i32, SummerError> {
    match arg {
        Option::None => Result::Err(SummerError::MissingArgument),
        Option::Some(s) => if is_int_literal(s) && in_i32_range(int_literal_value(s)) {
            Result::Ok(spec_bounded_sum(int_literal_value(s)) as i32)
        } else {
            Result::Err(SummerError::ParseFailure)
        },
    }
}

/// The summer program's computation: parse the optional bound argument
/// and run the bounded sum, or report why no sum could be produced.
pub fn summer_output(arg: Option<&[u8]>) -> (r: Result<i32, SummerError>)
    ensures
        arg is None ==> r == summer_outcome(None),
        arg matches Some(s) ==> r == summer_outcome(Some(s@)),
{
    match arg {
        None => Err(SummerError::MissingArgument),
        Some(s) => match parse_i32(s) {
            Ok(b) => {
                proof {
                    lemma_bounded_sum_range(b as int);
                }
                Ok(bounded_sum(b))
            },
            Err(_) => Err(SummerError::ParseFailure),
        },
    }
}

/// Idempotence: the summer's outcome is a function of its argument
/// alone, so two runs on the same argument agree exactly.
pub proof fn lemma_summer_deterministic(
    arg: Option<Seq<u8>>,
    r1: Result<i32, SummerError>,
    r2: Result<i32, SummerError>,
)
    requires
        r1 == summer_outcome(arg),
        r2 == summer_outcome(arg),
    ensures
        r1 == r2,
{
}

/// Determinism: the contract of `bounded_sum` pins one result per bound,
/// so two runs on the same bound return the same value.
pub proof fn lemma_bounded_sum_deterministic(last: i32, r1: i32, r2: i32)
    requires
        r1 == spec_bounded_sum(last as int),
        r2 == spec_bounded_sum(last as int),
    ensures
        r1 == r2,
{
}

} // verus!
