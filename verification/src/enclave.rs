//! The entry of the trusted execution environment: byte buffers in, a
//! status code out.

use vstd::prelude::*;
use crate::engine::exec_wasm_with_data_and_schema;
use crate::engine::verdict;
use crate::error::ExecWasmError;
use crate::error::ExtractError;
use crate::extractor::payload;
use crate::extractor::trim_at_terminator;
use crate::json::decode_document;
use crate::json::json_document;
use crate::params::Convention;
use crate::sizer::DEFAULT_MAX_PAGES;

verus! {

/// Bytes reserved for the output of a call across the trust boundary.
pub const RESULT_CAPACITY: usize = 4096;

/// The status of a call across the trust boundary.
#[derive(Clone, Copy, Debug, PartialEq, Eq, Structural)]
pub enum CallStatus {
    /// The call ran and its output is a document.
    Success,
    /// The caller passed no module.
    InvalidParameter,
    /// The call failed, or its output is no document.
    Unexpected,
}

/// The status of a call that ended with `run` and left `output` in the
/// result buffer.
pub open spec fn report_spec(run: Result<(), ExecWasmError>, output: Seq<u8>) -> CallStatus {
    match run {
        Err(_) => CallStatus::Unexpected,
        Ok(()) => if json_document(payload(output)) is Some {
            CallStatus::Success
        } else {
            CallStatus::Unexpected
        },
    }
}

/// Decodes the document that a guest left in `buffer`: the bytes before the
/// first zero byte. What follows that byte never reaches the decoder.
pub fn trim_and_deserialize_output(buffer: &[u8]) -> (r: Result<serde_json::Value, ExtractError>)
    ensures
        match json_document(payload(buffer@)) {
            Some(document) => r == Ok::<serde_json::Value, ExtractError>(document),
            None => r == Err::<serde_json::Value, ExtractError>(ExtractError::Malformed),
        },
{
    let valid_data: Vec<u8> = trim_at_terminator(buffer);
    match decode_document(valid_data.as_slice()) {
        Some(document) => Ok(document),
        None => Err(ExtractError::Malformed),
    }
}

/// The status of a call that ended with `run` and left `output` in the
/// result buffer.
pub fn report(run: Result<(), ExecWasmError>, output: &[u8]) -> (r: CallStatus)
    ensures
        r == report_spec(run, output@),
{
    match run {
        Err(_) => CallStatus::Unexpected,
        Ok(()) => match trim_and_deserialize_output(output) {
            Ok(_) => CallStatus::Success,
            Err(_) => CallStatus::Unexpected,
        },
    }
}

/// Runs `binary` on `data` and `schema` with an output region of
/// `RESULT_CAPACITY` bytes and reports how the call ended.
///
/// `binary` is `None` where the caller passed no module. A call that the
/// loader, the sizer or the resolver refuses is reported as `Unexpected`.
pub fn exec_wasm(data: &[u8], schema: &[u8], binary: Option<&[u8]>) -> (r: CallStatus)
    ensures
        match binary {
            None => r == CallStatus::InvalidParameter,
            Some(module) => {
                &&& r == CallStatus::Success || r == CallStatus::Unexpected
                &&& verdict(
                    module@,
                    Convention::Schema,
                    data@.len(),
                    schema@.len(),
                    RESULT_CAPACITY as nat,
                    DEFAULT_MAX_PAGES as nat,
                ) is Some ==> r == CallStatus::Unexpected
            },
        },
{
    let binary: &[u8] = match binary {
        Some(binary) => binary,
        None => {
            return CallStatus::InvalidParameter;
        },
    };
    let mut result_buffer: Vec<u8> = vec![0u8; RESULT_CAPACITY];
    let run = exec_wasm_with_data_and_schema(binary, data, schema, result_buffer.as_mut_slice());
    report(run, result_buffer.as_slice())
}

} // verus!
