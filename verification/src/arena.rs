//! The linear memory of one call: allocated by the host, lent to the guest,
//! read back by the host.

use vstd::prelude::*;
use crate::error::ExecError;
use crate::error::ExtractError;
use crate::error::SizeError;
use crate::interp::alloc_memory;
use crate::interp::memory_bytes;
use crate::interp::memory_get;
use crate::interp::memory_pages;
use crate::interp::memory_set;
use crate::resolver::HostMemory;
use crate::sizer::Limits;
use crate::sizer::PAGE_SIZE;

verus! {

/// The guest's whole address space, owned by the host.
pub struct MemoryArena {
    pub(crate) mem: wasmi::MemoryRef,
    pub(crate) pages: u32,
    pub(crate) max_pages: u32,
}

/// `mem` with `data` copied over it from `offset` on.
pub open spec fn overwrite(mem: Seq<u8>, offset: int, data: Seq<u8>) -> Seq<u8> {
    Seq::new(mem.len(), |i: int| if offset <= i < offset + data.len() { data[i - offset] } else { mem[i] })
}

/// The bytes `[offset, offset + len)` of `mem`, where they lie inside it.
pub open spec fn region(mem: Seq<u8>, offset: int, len: int) -> Option<Seq<u8>> {
    if 0 <= offset && 0 <= len && offset + len <= mem.len() {
        Some(mem.subrange(offset, offset + len))
    } else {
        None
    }
}

/// A sequence of `len` zero bytes.
pub open spec fn zeroes(len: nat) -> Seq<u8> {
    Seq::new(len, |i: int| 0u8)
}

impl View for MemoryArena {
    type V = Seq<u8>;

    /// The bytes of the arena.
    open(crate) spec fn view(&self) -> Seq<u8> {
        memory_bytes(self.mem)
    }
}

impl MemoryArena {
    /// What the arena was allocated as: its pages and the pages it may grow to.
    pub open(crate) spec fn spec_offer(&self) -> HostMemory {
        HostMemory { pages: self.pages, max_pages: self.max_pages }
    }

    /// A fresh arena of `pages` zeroed pages that may grow to the cap of `limits`.
    pub fn allocate(pages: u32, limits: &Limits) -> (r: Result<MemoryArena, SizeError>)
        ensures
            pages > limits.cap() ==> r matches Err(SizeError::TooLarge),
            r matches Err(e) ==> e == SizeError::TooLarge || e == SizeError::Unavailable,
            r matches Err(SizeError::TooLarge) ==> pages > limits.cap(),
            r matches Ok(arena) ==> {
                &&& arena@ == zeroes(pages as nat * PAGE_SIZE as nat)
                &&& arena.spec_offer() == HostMemory { pages, max_pages: limits.cap() as u32 }
            },
    {
        let max_pages: u32 = limits.max_pages();
        if pages > max_pages {
            return Err(SizeError::TooLarge);
        }
        match alloc_memory(pages, max_pages) {
            Ok(mem) => {
                assert(memory_bytes(mem) =~= zeroes(pages as nat * PAGE_SIZE as nat));
                Ok(MemoryArena { mem, pages, max_pages })
            },
            Err(_) => Err(SizeError::Unavailable),
        }
    }

    /// The memory that this arena offers to a module.
    pub fn offer(&self) -> (r: HostMemory)
        ensures
            r == self.spec_offer(),
    {
        HostMemory { pages: self.pages, max_pages: self.max_pages }
    }

    /// The length of the arena in bytes.
    pub fn byte_len(&self) -> (r: u64)
        ensures
            r == self@.len(),
    {
        let pages: usize = memory_pages(&self.mem);
        (pages as u64) * (PAGE_SIZE as u64)
    }

    /// Copies `data` into the arena at `offset`. Fails, and changes nothing,
    /// where the region does not lie inside the arena.
    pub fn write(&mut self, offset: u32, data: &[u8]) -> (r: Result<(), ExecError>)
        ensures
            r is Ok <==> offset as nat + data@.len() <= old(self)@.len(),
            r is Ok ==> final(self)@ == overwrite(old(self)@, offset as int, data@),
            r matches Err(e) ==> e == ExecError::MemoryWrite && final(self)@ == old(self)@,
            final(self).spec_offer() == old(self).spec_offer(),
    {
        match memory_set(&mut self.mem, offset, data) {
            Ok(()) => Ok(()),
            Err(_) => Err(ExecError::MemoryWrite),
        }
    }

    /// A copy of `len` bytes of the arena from `offset`. Fails where the
    /// region does not lie inside the arena.
    pub fn read(&self, offset: u32, len: usize) -> (r: Result<Vec<u8>, ExtractError>)
        ensures
            match region(self@, offset as int, len as int) {
                Some(bytes) => r matches Ok(v) && v@ == bytes,
                None => r == Err::<Vec<u8>, ExtractError>(ExtractError::OutOfBounds),
            },
    {
        match memory_get(&self.mem, offset, len) {
            Ok(bytes) => Ok(bytes),
            Err(_) => Err(ExtractError::OutOfBounds),
        }
    }
}

/// A region is refused exactly when it reaches past the end of the arena;
/// a region that is granted has the length that was asked for.
pub proof fn lemma_region_stays_inside(mem: Seq<u8>, offset: nat, len: nat)
    ensures
        region(mem, offset as int, len as int) is None <==> offset + len > mem.len(),
        region(mem, offset as int, len as int) matches Some(bytes) ==> bytes.len() == len,
{
}

/// Writing keeps the length of the arena and every byte outside the region.
pub proof fn lemma_write_frames(mem: Seq<u8>, offset: int, data: Seq<u8>)
    requires
        0 <= offset,
        offset + data.len() <= mem.len(),
    ensures
        overwrite(mem, offset, data).len() == mem.len(),
        forall|i: int| 0 <= i < offset ==> overwrite(mem, offset, data)[i] == mem[i],
        forall|i: int| offset + data.len() <= i < mem.len() ==> overwrite(mem, offset, data)[i] == mem[i],
{
}

/// What was written is what is read back: after `data` went into the arena
/// at `offset`, the region of its length at `offset` holds exactly `data`.
pub proof fn lemma_write_then_read(mem: Seq<u8>, offset: int, data: Seq<u8>)
    requires
        0 <= offset,
        offset + data.len() <= mem.len(),
    ensures
        region(overwrite(mem, offset, data), offset, data.len() as int) == Some(data),
{
    assert(overwrite(mem, offset, data).subrange(offset, offset + data.len()) =~= data);
}

/// A write leaves every region that does not meet it as it was.
pub proof fn lemma_write_keeps_disjoint_region(mem: Seq<u8>, offset: int, data: Seq<u8>, at: int, len: int)
    requires
        0 <= offset,
        offset + data.len() <= mem.len(),
        0 <= at,
        0 <= len,
        at + len <= mem.len(),
        at + len <= offset || offset + data.len() <= at,
    ensures
        region(overwrite(mem, offset, data), at, len) == region(mem, at, len),
{
    assert(overwrite(mem, offset, data).subrange(at, at + len) =~= mem.subrange(at, at + len));
}

} // verus!
