//! The mean of an array of integers, rounded toward zero.

use vstd::prelude::*;
use crate::json::decode_i32_array;
use crate::json::json_i32_array;

verus! {

/// The sum of `values`.
pub open spec fn sum(values: Seq<i32>) -> int
    decreases values.len(),
{
    if values.len() == 0 {
        0
    } else {
        sum(values.drop_last()) + values.last()
    }
}

/// The quotient of `dividend` by a positive `divisor`, rounded toward zero.
pub open spec fn quotient_toward_zero(dividend: int, divisor: int) -> int {
    if dividend >= 0 {
        dividend / divisor
    } else {
        -((-dividend) / divisor)
    }
}

/// The mean of `values`, rounded toward zero.
pub open spec fn mean_of(values: Seq<i32>) -> int {
    quotient_toward_zero(sum(values), values.len() as int)
}

/// The mean exists as a 32-bit integer: there is a value, their number and
/// their sum fit.
pub open spec fn mean_defined(values: Seq<i32>) -> bool {
    &&& 0 < values.len() <= i32::MAX
    &&& i32::MIN <= sum(values) <= i32::MAX
}

/// A sum of `n` 32-bit integers lies within `n` times their range.
pub proof fn lemma_sum_bounds(values: Seq<i32>)
    ensures
        values.len() * (i32::MIN as int) <= sum(values) <= values.len() * (i32::MAX as int),
    decreases values.len(),
{
    if values.len() > 0 {
        lemma_sum_bounds(values.drop_last());
        assert(values.len() * (i32::MIN as int) == values.drop_last().len() * (i32::MIN as int) + i32::MIN) by (nonlinear_arith)
            requires
                values.drop_last().len() == values.len() - 1,
        ;
        assert(values.len() * (i32::MAX as int) == values.drop_last().len() * (i32::MAX as int) + i32::MAX) by (nonlinear_arith)
            requires
                values.drop_last().len() == values.len() - 1,
        ;
    }
}

/// The sum of `values`, or `None` where it does not fit 32 bits.
pub fn checked_sum(values: &[i32]) -> (r: Option<i32>)
    ensures
        match r {
            Some(total) => total == sum(values@),
            None => sum(values@) < i32::MIN || sum(values@) > i32::MAX,
        },
{
    let mut total: i128 = 0;
    let mut i: usize = 0;
    while i < values.len()
        invariant
            0 <= i <= values.len(),
            total == sum(values@.subrange(0, i as int)),
        decreases values.len() - i,
    {
        proof {
            lemma_sum_bounds(values@.subrange(0, i as int));
            assert(values@.subrange(0, i + 1).drop_last() =~= values@.subrange(0, i as int));
            assert(i * (i32::MIN as int) >= usize::MAX * (i32::MIN as int)) by (nonlinear_arith)
                requires
                    0 <= i <= usize::MAX,
            ;
            assert(i * (i32::MAX as int) <= usize::MAX * (i32::MAX as int)) by (nonlinear_arith)
                requires
                    0 <= i <= usize::MAX,
            ;
        }
        total = total + values[i] as i128;
        i = i + 1;
    }
    assert(values@.subrange(0, values@.len() as int) =~= values@);
    if total < i32::MIN as i128 || total > i32::MAX as i128 {
        None
    } else {
        Some(total as i32)
    }
}

/// The mean of `values`, rounded toward zero.
pub fn mean(values: &[i32]) -> (r: i32)
    requires
        mean_defined(values@),
    ensures
        r == mean_of(values@),
{
    let total: i32 = match checked_sum(values) {
        Some(total) => total,
        None => 0,
    };
    let count: i32 = values.len() as i32;
    total / count
}

/// What `exec` answers to a message: the mean of the array that the message
/// encodes, and zero to a message that encodes none.
pub open spec fn answer(msg: Seq<u8>) -> int {
    match json_i32_array(msg) {
        Some(values) => mean_of(values),
        None => 0,
    }
}

/// The message has an answer: it encodes no array, or one with a mean.
pub open spec fn answerable(msg: Seq<u8>) -> bool {
    json_i32_array(msg) matches Some(values) ==> mean_defined(values)
}

/// The mean, rounded toward zero, of the JSON array of integers in `msg`.
/// A message that is no such array is answered with zero.
pub fn exec(msg: &[u8]) -> (r: i32)
    requires
        answerable(msg@),
    ensures
        r == answer(msg@),
{
    match decode_i32_array(msg) {
        Some(values) => mean(values.as_slice()),
        None => 0,
    }
}

/// `exec`, for any message: `None` where the array in `msg` has no mean,
/// because it is empty or because its length or its sum does not fit 32 bits.
pub fn try_exec(msg: &[u8]) -> (r: Option<i32>)
    ensures
        match r {
            Some(mean) => answerable(msg@) && mean == answer(msg@),
            None => !answerable(msg@),
        },
{
    let defined: bool = match decode_i32_array(msg) {
        Some(values) => {
            0 < values.len() && values.len() <= 0x7fff_ffff && checked_sum(values.as_slice()).is_some()
        },
        None => true,
    };
    if defined {
        Some(exec(msg))
    } else {
        None
    }
}

} // verus!
