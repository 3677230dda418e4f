//! The numeric values that cross the guest boundary.

use vstd::prelude::*;

verus! {

/// The four numeric types of the guest.
#[derive(Clone, Copy, Debug, PartialEq, Eq, Structural)]
pub enum ValueKind {
    I32,
    I64,
    F32,
    F64,
}

/// A value returned by an entry function. The floating-point variants carry
/// the IEEE 754 bit pattern of the value.
#[derive(Clone, Copy, Debug, PartialEq, Eq, Structural)]
pub enum Scalar {
    I32(i32),
    I64(i64),
    F32(u32),
    F64(u64),
}

impl Scalar {
    /// The type of this value.
    pub open spec fn spec_kind(self) -> ValueKind {
        match self {
            Scalar::I32(_) => ValueKind::I32,
            Scalar::I64(_) => ValueKind::I64,
            Scalar::F32(_) => ValueKind::F32,
            Scalar::F64(_) => ValueKind::F64,
        }
    }

    /// The type of this value.
    #[verifier::when_used_as_spec(spec_kind)]
    pub fn kind(self) -> (k: ValueKind)
        ensures
            k == self.spec_kind(),
    {
        match self {
            Scalar::I32(_) => ValueKind::I32,
            Scalar::I64(_) => ValueKind::I64,
            Scalar::F32(_) => ValueKind::F32,
            Scalar::F64(_) => ValueKind::F64,
        }
    }
}

} // verus!
