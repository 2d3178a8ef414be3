//! Schedule handling for a small financial valuation library.
//!
//! A cash-flow schedule is a pair of equal-length parallel sequences: the
//! payment times (non-negative integers, counting elapsed periods) and the
//! payment amounts. Bond pricing additionally reads the maturity date from
//! the final entry of the time schedule. The functions here validate and
//! build such schedules; discounting itself is left to the caller.

use vstd::prelude::*;

verus! {

/// Why a valuation request is rejected before any discounting begins.
#[derive(Clone, Copy, Debug, PartialEq, Eq, Structural)]
pub enum PricingError {
    /// The time and amount sequences of a schedule differ in length.
    InvalidInput,
    /// A bond schedule is empty, so it has no maturity date.
    EmptyScheduleError,
}

/// Builds a vector holding `size` copies of `item`: the coupon payment
/// stream of a bond is `size` identical payments, one per coupon date.
pub fn fill<T: Copy>(size: usize, item: T) -> (r: Vec<T>)
    ensures
        r@.len() == size,
        forall|i: int| 0 <= i < size ==> r@[i] == item,
{
    let mut fill_vec: Vec<T> = Vec::with_capacity(size);
    for i in 0..size
        invariant
            fill_vec@.len() == i,
            forall|j: int| 0 <= j < i ==> fill_vec@[j] == item,
    {
        fill_vec.push(item);
    }
    fill_vec
}

/// Checks the shared precondition of the present-value reducers: the two
/// parallel sequences of a schedule must pair up entry for entry, so their
/// lengths must agree. An empty schedule (both lengths zero) is accepted.
pub fn validate_schedule(times_len: usize, amounts_len: usize) -> (r: Result<(), PricingError>)
    ensures
        r is Ok <==> times_len == amounts_len,
        r is Err ==> r == Err::<(), PricingError>(PricingError::InvalidInput),
{
    if times_len == amounts_len {
        Ok(())
    } else {
        Err(PricingError::InvalidInput)
    }
}

/// Reads the maturity date of a bond: the final entry of its coupon time
/// schedule, where the principal is repaid. An empty schedule has no
/// maturity and is rejected.
pub fn maturity_time(times: &Vec<usize>) -> (r: Result<usize, PricingError>)
    ensures
        times@.len() > 0 ==> r == Ok::<usize, PricingError>(times@[times@.len() - 1]),
        times@.len() == 0 ==> r == Err::<usize, PricingError>(PricingError::EmptyScheduleError),
{
    if times.len() == 0 {
        Err(PricingError::EmptyScheduleError)
    } else {
        Ok(times[times.len() - 1])
    }
}

} // verus!
