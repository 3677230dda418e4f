//! The JSON decoders, as the engine and the guests see them.
//!
//! Everything here is trusted: a decoder's result is named, not modelled,
//! and all that is claimed is that it is a function of the bytes.

use vstd::prelude::*;

verus! {

#[verifier::external_type_specification]
#[verifier::external_body]
pub struct ExValue(serde_json::Value);

/// The document that `bytes` encode; `None` where they encode none.
pub uninterp spec fn json_document(bytes: Seq<u8>) -> Option<serde_json::Value>;

/// The array of 32-bit integers that `bytes` encode; `None` where they
/// encode none.
pub uninterp spec fn json_i32_array(bytes: Seq<u8>) -> Option<Seq<i32>>;

/// The array of 32-bit integers that `bytes` encode, as the decoder of the
/// guests reads them; `None` where they encode none.
pub uninterp spec fn guest_json_i32_array(bytes: Seq<u8>) -> Option<Seq<i32>>;

/// `serde_json::from_slice` at `serde_json::Value`: the decoded document,
/// a function of the bytes alone.
#[verifier::external_body]
pub(crate) fn decode_document(bytes: &[u8]) -> (r: Option<serde_json::Value>)
    ensures
        r == json_document(bytes@),
{
    serde_json::from_slice::<serde_json::Value>(bytes).ok()
}

/// `serde_json::from_slice` at `Vec<i32>`: the decoded array, a function of
/// the bytes alone.
#[verifier::external_body]
pub(crate) fn decode_i32_array(bytes: &[u8]) -> (r: Option<Vec<i32>>)
    ensures
        r matches Some(values) ==> json_i32_array(bytes@) == Some(values@),
        r is None ==> json_i32_array(bytes@) is None,
{
    serde_json::from_slice::<Vec<i32>>(bytes).ok()
}

/// `serde_json_wasm::from_slice` at `Vec<i32>`: the decoded array, a
/// function of the bytes alone.
#[verifier::external_body]
pub(crate) fn guest_decode_i32_array(bytes: &[u8]) -> (r: Option<Vec<i32>>)
    ensures
        r matches Some(values) ==> guest_json_i32_array(bytes@) == Some(values@),
        r is None ==> guest_json_i32_array(bytes@) is None,
{
    serde_json_wasm::from_slice::<Vec<i32>>(bytes).ok()
}

} // verus!
