//! Sizing of the linear memory that one call reserves.

use vstd::prelude::*;
use crate::error::SizeError;

verus! {

/// Bytes in one page of linear memory.
pub const PAGE_SIZE: usize = 65536;

/// The largest cap a `Limits` can carry. It is one page short of the
/// interpreter's address space, so that every offset and length inside an
/// arena fits the 32-bit calling convention.
pub const MAX_PAGES_CEILING: u32 = 65535;

/// The cap used where the caller configures none.
pub const DEFAULT_MAX_PAGES: u32 = 100;

/// The memory budget of a call.
#[derive(Clone, Copy, Debug)]
pub struct Limits {
    max_pages: u32,
}

/// Pages needed to hold `bytes` bytes: the quotient by the page size, rounded up.
pub open spec fn pages_for(bytes: nat) -> nat {
    (bytes + PAGE_SIZE as nat - 1) as nat / PAGE_SIZE as nat
}

/// What `size` returns, as a function of its inputs.
pub open spec fn size_spec(input_len: nat, output_len: nat, max_pages: nat) -> Result<nat, SizeError> {
    if input_len + output_len > usize::MAX {
        Err(SizeError::Overflow)
    } else if pages_for(input_len + output_len) > max_pages {
        Err(SizeError::TooLarge)
    } else {
        Ok(pages_for(input_len + output_len))
    }
}

/// Relates a result of `size` to its inputs.
pub open spec fn size_result_matches(r: Result<u32, SizeError>, input_len: nat, output_len: nat, max_pages: nat) -> bool {
    match size_spec(input_len, output_len, max_pages) {
        Ok(pages) => r matches Ok(p) && p as nat == pages,
        Err(e) => r == Err::<u32, SizeError>(e),
    }
}

impl Limits {
    /// The cap in pages.
    pub closed spec fn cap(&self) -> nat {
        self.max_pages as nat
    }

    /// Every `Limits` stays within the ceiling.
    #[verifier::type_invariant]
    spec fn within_ceiling(&self) -> bool {
        self.max_pages <= MAX_PAGES_CEILING
    }

    /// A budget of `max_pages` pages, if that is within the ceiling.
    pub fn new(max_pages: u32) -> (r: Option<Limits>)
        ensures
            r is Some <==> max_pages <= MAX_PAGES_CEILING,
            r matches Some(l) ==> l.cap() == max_pages,
    {
        if max_pages <= MAX_PAGES_CEILING {
            Some(Limits { max_pages })
        } else {
            None
        }
    }

    /// The budget of `DEFAULT_MAX_PAGES` pages.
    pub fn standard() -> (r: Limits)
        ensures
            r.cap() == DEFAULT_MAX_PAGES,
    {
        Limits { max_pages: DEFAULT_MAX_PAGES }
    }

    /// The cap in pages.
    pub fn max_pages(&self) -> (r: u32)
        ensures
            r as nat == self.cap(),
            r <= MAX_PAGES_CEILING,
    {
        proof {
            use_type_invariant(self);
        }
        self.max_pages
    }
}

/// The page count rounds up: the pages hold the bytes, and one page fewer
/// would not.
pub proof fn lemma_pages_for_is_ceiling(bytes: nat)
    ensures
        pages_for(bytes) * (PAGE_SIZE as nat) >= bytes,
        bytes > 0 ==> (pages_for(bytes) - 1) * (PAGE_SIZE as nat) < bytes,
        bytes == 0 ==> pages_for(bytes) == 0,
{
}

/// A request whose page count is within the cap is granted, with that count.
pub proof fn lemma_size_succeeds_within_cap(input_len: nat, output_len: nat, max_pages: nat)
    requires
        input_len + output_len <= usize::MAX,
        pages_for(input_len + output_len) <= max_pages,
    ensures
        size_spec(input_len, output_len, max_pages) == Ok::<nat, SizeError>(pages_for(input_len + output_len)),
{
}

/// A request whose combined length does not fit the machine word is refused
/// as an overflow, whatever the cap.
pub proof fn lemma_size_refuses_overflow(input_len: nat, output_len: nat, max_pages: nat)
    requires
        input_len + output_len > usize::MAX,
    ensures
        size_spec(input_len, output_len, max_pages) == Err::<nat, SizeError>(SizeError::Overflow),
{
}

/// The inputs determine the result: two results of `size` on the same
/// lengths under the same cap are equal.
pub proof fn lemma_size_is_deterministic(
    first: Result<u32, SizeError>,
    second: Result<u32, SizeError>,
    input_len: nat,
    output_len: nat,
    max_pages: nat,
)
    requires
        size_result_matches(first, input_len, output_len, max_pages),
        size_result_matches(second, input_len, output_len, max_pages),
    ensures
        first == second,
{
}

/// Pages to reserve for an input of `input_len` bytes and an output of
/// `output_len` bytes under the budget `limits`.
pub fn size(input_len: usize, output_len: usize, limits: &Limits) -> (r: Result<u32, SizeError>)
    ensures
        size_result_matches(r, input_len as nat, output_len as nat, limits.cap()),
{
    let cap: u32 = limits.max_pages();
    match input_len.checked_add(output_len) {
        None => Err(SizeError::Overflow),
        Some(combined) => {
            let whole: usize = combined / PAGE_SIZE;
            let pages: usize = if combined % PAGE_SIZE == 0 { whole } else { whole + 1 };
            if pages > cap as usize {
                Err(SizeError::TooLarge)
            } else {
                Ok(pages as u32)
            }
        },
    }
}

} // verus!
