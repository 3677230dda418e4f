//! The sum of two arrays of integers, one appended to the other.

use vstd::prelude::*;
use crate::guest::mean_int::checked_sum;
use crate::guest::mean_int::sum;
use crate::json::guest_decode_i32_array;
use crate::json::guest_json_i32_array;

verus! {

/// The sum of the two arrays that the messages encode, the second appended
/// to the first; `None` where a message encodes no array.
pub open spec fn appended_total(msg_1: Seq<u8>, msg_2: Seq<u8>) -> Option<int> {
    match (guest_json_i32_array(msg_1), guest_json_i32_array(msg_2)) {
        (Some(first), Some(second)) => Some(sum(first + second)),
        _ => None,
    }
}

/// Both messages encode an array, and the total fits 32 bits.
pub open spec fn appendable(msg_1: Seq<u8>, msg_2: Seq<u8>) -> bool {
    appended_total(msg_1, msg_2) matches Some(total) && i32::MIN <= total <= i32::MAX
}

/// Appends the array in `msg_2` to the array in `msg_1` and returns the sum
/// of all their elements.
pub fn exec_append(msg_1: &[u8], msg_2: &[u8]) -> (r: i32)
    requires
        appendable(msg_1@, msg_2@),
    ensures
        Some(r as int) == appended_total(msg_1@, msg_2@),
{
    let mut val_1: Vec<i32> = match guest_decode_i32_array(msg_1) {
        Some(values) => values,
        None => Vec::new(),
    };
    let mut val_2: Vec<i32> = match guest_decode_i32_array(msg_2) {
        Some(values) => values,
        None => Vec::new(),
    };
    val_1.append(&mut val_2);
    match checked_sum(val_1.as_slice()) {
        Some(total) => total,
        None => 0,
    }
}

/// `exec_append`, for any two messages: `None` where one of them encodes no
/// array or the total does not fit 32 bits.
pub fn try_exec_append(msg_1: &[u8], msg_2: &[u8]) -> (r: Option<i32>)
    ensures
        match r {
            Some(total) => appendable(msg_1@, msg_2@) && Some(total as int) == appended_total(msg_1@, msg_2@),
            None => !appendable(msg_1@, msg_2@),
        },
{
    let defined: bool = match (guest_decode_i32_array(msg_1), guest_decode_i32_array(msg_2)) {
        (Some(first), Some(second)) => {
            let mut all: Vec<i32> = first;
            let mut rest: Vec<i32> = second;
            all.append(&mut rest);
            checked_sum(all.as_slice()).is_some()
        },
        _ => false,
    };
    if defined {
        Some(exec_append(msg_1, msg_2))
    } else {
        None
    }
}

} // verus!
