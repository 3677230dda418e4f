//! Extraction: the one way a result leaves a call.

use vstd::prelude::*;
use crate::arena::MemoryArena;
use crate::arena::region;
use crate::driver::RawResult;
use crate::error::ExtractError;
use crate::value::Scalar;
use crate::value::ValueKind;

verus! {

/// The result of a call.
#[derive(Debug)]
pub enum ExecutionResult {
    /// The value that the entry function returned.
    Scalar(Scalar),
    /// The bytes that the guest wrote to its output region.
    Buffer(Vec<u8>),
}

/// The path by which a result is to leave the call.
#[derive(Clone, Copy, Debug)]
pub enum Expectation {
    /// The return value of the entry function, of the given type.
    Scalar(ValueKind),
    /// The bytes of the output region.
    Buffer,
}

/// What `extract_scalar` returns, as a function of its inputs.
pub open spec fn scalar_spec(returned: Option<Scalar>, expected: ValueKind) -> Result<Scalar, ExtractError> {
    match returned {
        Some(value) => if value.spec_kind() == expected {
            Ok(value)
        } else {
            Err(ExtractError::TypeMismatch)
        },
        None => Err(ExtractError::TypeMismatch),
    }
}

/// Takes the value that the entry function returned, if it is of the
/// expected type.
pub fn extract_scalar(returned: Option<Scalar>, expected: ValueKind) -> (r: Result<Scalar, ExtractError>)
    ensures
        r == scalar_spec(returned, expected),
{
    match returned {
        Some(value) => {
            if value.kind() == expected {
                Ok(value)
            } else {
                Err(ExtractError::TypeMismatch)
            }
        },
        None => Err(ExtractError::TypeMismatch),
    }
}

/// Reads exactly `len` bytes of the arena from `offset`. A region that
/// reaches past the end of the arena is refused whole.
pub fn extract_buffer(arena: &MemoryArena, offset: u32, len: usize) -> (r: Result<Vec<u8>, ExtractError>)
    ensures
        match region(arena@, offset as int, len as int) {
            Some(bytes) => r matches Ok(v) && v@ == bytes,
            None => r == Err::<Vec<u8>, ExtractError>(ExtractError::OutOfBounds),
        },
{
    arena.read(offset, len)
}

/// Extracts the result of an invocation by the one path that `expected`
/// names: the returned value after a check of its type, or the output
/// region after a check of its bounds.
pub fn extract(arena: &MemoryArena, raw: &RawResult, expected: Expectation) -> (r: Result<ExecutionResult, ExtractError>)
    ensures
        match expected {
            Expectation::Scalar(kind) => match scalar_spec(raw.returned, kind) {
                Ok(value) => r matches Ok(ExecutionResult::Scalar(v)) && v == value,
                Err(e) => r matches Err(raised) && raised == e,
            },
            Expectation::Buffer => match region(arena@, raw.output_offset as int, raw.output_len as int) {
                Some(bytes) => r matches Ok(ExecutionResult::Buffer(v)) && v@ == bytes,
                None => r matches Err(ExtractError::OutOfBounds),
            },
        },
{
    match expected {
        Expectation::Scalar(kind) => match extract_scalar(raw.returned, kind) {
            Ok(value) => Ok(ExecutionResult::Scalar(value)),
            Err(e) => Err(e),
        },
        Expectation::Buffer => match extract_buffer(arena, raw.output_offset, raw.output_len as usize) {
            Ok(bytes) => Ok(ExecutionResult::Buffer(bytes)),
            Err(e) => Err(e),
        },
    }
}

/// The index of the first zero byte of `bytes`, or their length where none
/// is zero.
pub open spec fn payload_len(bytes: Seq<u8>) -> int
    decreases bytes.len(),
{
    if bytes.len() == 0 || bytes[0] == 0u8 {
        0
    } else {
        1 + payload_len(bytes.subrange(1, bytes.len() as int))
    }
}

/// The payload of a buffer that a guest terminated with a zero byte: the
/// bytes before the first zero.
pub open spec fn payload(bytes: Seq<u8>) -> Seq<u8> {
    bytes.subrange(0, payload_len(bytes))
}

/// `payload_len` is the least index of a zero byte, or the length.
pub proof fn lemma_payload_len(bytes: Seq<u8>)
    ensures
        0 <= payload_len(bytes) <= bytes.len(),
        forall|i: int| 0 <= i < payload_len(bytes) ==> bytes[i] != 0u8,
        payload_len(bytes) < bytes.len() ==> bytes[payload_len(bytes)] == 0u8,
    decreases bytes.len(),
{
    if bytes.len() == 0 || bytes[0] == 0u8 {
    } else {
        let rest = bytes.subrange(1, bytes.len() as int);
        lemma_payload_len(rest);
        assert forall|i: int| 0 <= i < payload_len(bytes) implies bytes[i] != 0u8 by {
            if i > 0 {
                assert(rest[i - 1] == bytes[i]);
            }
        }
        if payload_len(bytes) < bytes.len() {
            assert(rest[payload_len(rest)] == bytes[payload_len(bytes)]);
        }
    }
}

/// An index with a zero byte and none before it is the payload's length.
pub proof fn lemma_payload_len_unique(bytes: Seq<u8>, n: int)
    requires
        0 <= n <= bytes.len(),
        forall|i: int| 0 <= i < n ==> bytes[i] != 0u8,
        n < bytes.len() ==> bytes[n] == 0u8,
    ensures
        payload_len(bytes) == n,
{
    lemma_payload_len(bytes);
    let m = payload_len(bytes);
    if m < n {
        assert(bytes[m] != 0u8);
    }
    if n < m {
        assert(bytes[n] != 0u8);
    }
}

/// What follows the terminator does not matter: two buffers that start
/// with the same zero-free bytes and a zero byte have the same payload,
/// those bytes.
pub proof fn lemma_bytes_after_terminator_are_discarded(written: Seq<u8>, left_over: Seq<u8>, other: Seq<u8>)
    requires
        forall|i: int| 0 <= i < written.len() ==> written[i] != 0u8,
    ensures
        payload(written + seq![0u8] + left_over) == written,
        payload(written + seq![0u8] + left_over) == payload(written + seq![0u8] + other),
        payload(written) == written,
{
    let a = written + seq![0u8] + left_over;
    let b = written + seq![0u8] + other;
    assert forall|i: int| 0 <= i < written.len() implies a[i] != 0u8 && b[i] != 0u8 by {
        assert(a[i] == written[i]);
        assert(b[i] == written[i]);
    }
    assert(a[written.len() as int] == 0u8);
    assert(b[written.len() as int] == 0u8);
    lemma_payload_len_unique(a, written.len() as int);
    lemma_payload_len_unique(b, written.len() as int);
    lemma_payload_len_unique(written, written.len() as int);
    assert(a.subrange(0, written.len() as int) =~= written);
    assert(b.subrange(0, written.len() as int) =~= written);
    assert(written.subrange(0, written.len() as int) =~= written);
}

/// The length of the payload of `buffer`: the index of its first zero byte,
/// or its length.
pub fn find_terminator(buffer: &[u8]) -> (r: usize)
    ensures
        r == payload_len(buffer@),
{
    let mut i: usize = 0;
    while i < buffer.len() && buffer[i] != 0
        invariant
            0 <= i <= buffer.len(),
            forall|j: int| 0 <= j < i ==> buffer@[j] != 0u8,
        decreases buffer.len() - i,
    {
        i = i + 1;
    }
    proof {
        lemma_payload_len_unique(buffer@, i as int);
    }
    i
}

/// The payload of `buffer`: its bytes before the first zero byte. What
/// follows is left-over arena content and is dropped.
pub fn trim_at_terminator(buffer: &[u8]) -> (r: Vec<u8>)
    ensures
        r@ == payload(buffer@),
{
    let end: usize = find_terminator(buffer);
    proof {
        lemma_payload_len(buffer@);
    }
    let mut out: Vec<u8> = Vec::new();
    let mut i: usize = 0;
    while i < end
        invariant
            0 <= i <= end <= buffer.len(),
            out@ == buffer@.subrange(0, i as int),
        decreases end - i,
    {
        out.push(buffer[i]);
        assert(out@ =~= buffer@.subrange(0, i + 1));
        i = i + 1;
    }
    out
}

} // verus!
