//! The engine's error taxonomy, one type per stage of a call.

use vstd::prelude::*;

verus! {

/// The loader refused the bytes.
#[derive(Clone, Copy, Debug, PartialEq, Eq, Structural)]
pub enum LoadError {
    /// The bytes are not a well-formed, valid module.
    Malformed,
}

/// The sizer refused the request.
#[derive(Clone, Copy, Debug, PartialEq, Eq, Structural)]
pub enum SizeError {
    /// The combined length of the regions does not fit the machine word.
    Overflow,
    /// The arena would need more pages than the configured cap.
    TooLarge,
    /// The host could not commit the pages that were computed.
    Unavailable,
}

/// The resolver refused the module's imports.
#[derive(Clone, Copy, Debug, PartialEq, Eq, Structural)]
pub enum ResolveError {
    /// The module asks for something other than the host memory, or does
    /// not ask for the host memory at all.
    UnknownImport,
    /// The module asks for the host memory with limits the arena does not meet.
    LimitsMismatch,
    /// The interpreter could not place the module's segments in the arena.
    Instantiation,
}

/// The invocation failed.
#[derive(Clone, Copy, Debug, PartialEq, Eq, Structural)]
pub enum ExecError {
    /// A region handed to the guest does not lie inside the arena.
    MemoryWrite,
    /// The module has no entry function of the expected name and signature.
    SignatureMismatch,
    /// The guest trapped.
    Trap,
}

/// The result could not be read back.
#[derive(Clone, Copy, Debug, PartialEq, Eq, Structural)]
pub enum ExtractError {
    /// The requested region reaches past the end of the arena.
    OutOfBounds,
    /// The entry function returned no value, or one of another type.
    TypeMismatch,
    /// The payload the guest wrote is not a document of the expected format.
    Malformed,
}

/// Any failure of a call, tagged with the stage that raised it.
#[derive(Clone, Copy, Debug, PartialEq, Eq, Structural)]
pub enum ExecWasmError {
    /// The module could not be loaded.
    Load(LoadError),
    /// The arena could not be sized or committed.
    Size(SizeError),
    /// The module's imports could not be resolved.
    Resolve(ResolveError),
    /// The entry function could not be invoked, or trapped.
    Exec(ExecError),
    /// The result could not be read back.
    Extract(ExtractError),
}

} // verus!
