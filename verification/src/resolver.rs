//! Resolution of a module's imports against the one capability the host
//! offers: its own linear memory, under the name `env.memory`.

use vstd::prelude::*;
use crate::error::ResolveError;

verus! {

/// What an import asks for.
#[derive(Clone, Copy, Debug)]
pub enum ImportKind {
    Function,
    Table,
    /// A memory of at least `min_pages` pages that grows to at most
    /// `max_pages`, where the module states such a bound.
    Memory { min_pages: u32, max_pages: Option<u32> },
    Global,
}

/// One entry of a module's import section.
#[derive(Clone, Debug)]
pub struct ImportRequest {
    pub namespace: String,
    pub name: String,
    pub kind: ImportKind,
}

/// The memory that the host offers to a module.
#[derive(Clone, Copy, Debug)]
pub struct HostMemory {
    /// Pages the memory has.
    pub pages: u32,
    /// Pages the memory may grow to.
    pub max_pages: u32,
}

/// The namespace of the host memory.
pub open spec fn host_namespace() -> Seq<char> {
    "env"@
}

/// The name of the host memory within its namespace.
pub open spec fn host_memory_name() -> Seq<char> {
    "memory"@
}

/// The request is for a memory, by the name under which the host offers its own.
pub open spec fn names_host_memory(req: ImportRequest) -> bool {
    &&& req.namespace@ == host_namespace()
    &&& req.name@ == host_memory_name()
    &&& req.kind is Memory
}

/// The offered memory is as large as the request demands and cannot outgrow
/// the bound that the request states.
pub open spec fn limits_met(kind: ImportKind, offer: HostMemory) -> bool {
    match kind {
        ImportKind::Memory { min_pages, max_pages } => {
            &&& min_pages <= offer.pages
            &&& max_pages matches Some(bound) ==> offer.max_pages <= bound
        },
        _ => false,
    }
}

/// The resolver's answer to one request.
pub open spec fn resolve_request_spec(req: ImportRequest, offer: Option<HostMemory>) -> Result<(), ResolveError> {
    match offer {
        None => Err(ResolveError::UnknownImport),
        Some(memory) => {
            if !names_host_memory(req) {
                Err(ResolveError::UnknownImport)
            } else if !limits_met(req.kind, memory) {
                Err(ResolveError::LimitsMismatch)
            } else {
                Ok(())
            }
        },
    }
}

/// The resolver's answer to a module's whole import section.
///
/// With no memory on offer a module must import nothing. With a memory on
/// offer a module must ask for it, and for nothing else; an unknown request
/// is reported before a mismatch of limits.
pub open spec fn resolve_spec(imports: Seq<ImportRequest>, offer: Option<HostMemory>) -> Result<(), ResolveError> {
    match offer {
        None => {
            if imports.len() == 0 {
                Ok(())
            } else {
                Err(ResolveError::UnknownImport)
            }
        },
        Some(memory) => {
            if imports.len() == 0 || exists|i: int| 0 <= i < imports.len() && !names_host_memory(#[trigger] imports[i]) {
                Err(ResolveError::UnknownImport)
            } else if exists|i: int| 0 <= i < imports.len() && !limits_met((#[trigger] imports[i]).kind, memory) {
                Err(ResolveError::LimitsMismatch)
            } else {
                Ok(())
            }
        },
    }
}

/// Whether `text` reads `literal`.
fn text_is(text: &String, literal: &str) -> (r: bool)
    ensures
        r == (text@ == literal@),
{
    let owned: String = literal.to_owned();
    *text == owned
}

/// Whether the request is for a memory under the name `env.memory`.
pub fn is_host_memory_request(req: &ImportRequest) -> (r: bool)
    ensures
        r == names_host_memory(*req),
{
    let kind_ok: bool = match req.kind {
        ImportKind::Memory { .. } => true,
        _ => false,
    };
    kind_ok && text_is(&req.namespace, "env") && text_is(&req.name, "memory")
}

/// Whether the offered memory meets the limits of the request.
pub fn meets_limits(kind: ImportKind, offer: HostMemory) -> (r: bool)
    ensures
        r == limits_met(kind, offer),
{
    match kind {
        ImportKind::Memory { min_pages, max_pages } => {
            let bounded: bool = match max_pages {
                Some(bound) => offer.max_pages <= bound,
                None => true,
            };
            min_pages <= offer.pages && bounded
        },
        _ => false,
    }
}

/// Answers one import request.
pub fn resolve_request(req: &ImportRequest, offer: Option<HostMemory>) -> (r: Result<(), ResolveError>)
    ensures
        r == resolve_request_spec(*req, offer),
{
    match offer {
        None => Err(ResolveError::UnknownImport),
        Some(memory) => {
            if !is_host_memory_request(req) {
                Err(ResolveError::UnknownImport)
            } else if !meets_limits(req.kind, memory) {
                Err(ResolveError::LimitsMismatch)
            } else {
                Ok(())
            }
        },
    }
}

/// Answers a module's whole import section.
pub fn resolve_imports(imports: &Vec<ImportRequest>, offer: Option<HostMemory>) -> (r: Result<(), ResolveError>)
    ensures
        r == resolve_spec(imports@, offer),
{
    let memory: HostMemory = match offer {
        None => {
            if imports.len() == 0 {
                return Ok(());
            } else {
                return Err(ResolveError::UnknownImport);
            }
        },
        Some(memory) => memory,
    };
    if imports.len() == 0 {
        return Err(ResolveError::UnknownImport);
    }
    let mut mismatch: bool = false;
    let mut i: usize = 0;
    while i < imports.len()
        invariant
            0 <= i <= imports.len(),
            forall|j: int| 0 <= j < i ==> names_host_memory(#[trigger] imports@[j]),
            mismatch <==> exists|j: int| 0 <= j < i && !limits_met((#[trigger] imports@[j]).kind, memory),
        decreases imports.len() - i,
    {
        if !is_host_memory_request(&imports[i]) {
            return Err(ResolveError::UnknownImport);
        }
        if !meets_limits(imports[i].kind, memory) {
            mismatch = true;
        }
        i = i + 1;
    }
    if mismatch {
        Err(ResolveError::LimitsMismatch)
    } else {
        Ok(())
    }
}

/// With a memory on offer, a module that does not ask for `env.memory`, or
/// that asks for anything that is not a memory, is rejected.
pub proof fn lemma_strangers_are_rejected(imports: Seq<ImportRequest>, memory: HostMemory)
    requires
        (forall|i: int| 0 <= i < imports.len() ==> !names_host_memory(#[trigger] imports[i]))
            || (exists|i: int| 0 <= i < imports.len() && !((#[trigger] imports[i]).kind is Memory)),
    ensures
        resolve_spec(imports, Some(memory)) is Err,
{
    if imports.len() > 0 {
        if forall|i: int| 0 <= i < imports.len() ==> !names_host_memory(#[trigger] imports[i]) {
            assert(!names_host_memory(imports[0]));
        } else {
            let i = choose|i: int| 0 <= i < imports.len() && !((#[trigger] imports[i]).kind is Memory);
            assert(!names_host_memory(imports[i]));
        }
    }
}

/// A module is accepted exactly when it has a request and each of its
/// requests is accepted alone.
pub proof fn lemma_accepted_iff_every_request_is(imports: Seq<ImportRequest>, memory: HostMemory)
    ensures
        resolve_spec(imports, Some(memory)) is Ok <==> {
            &&& imports.len() > 0
            &&& forall|i: int| 0 <= i < imports.len() ==> resolve_request_spec(#[trigger] imports[i], Some(memory)) is Ok
        },
{
    if resolve_spec(imports, Some(memory)) is Ok {
        assert forall|i: int| 0 <= i < imports.len() implies resolve_request_spec(#[trigger] imports[i], Some(memory)) is Ok by {
            assert(names_host_memory(imports[i]));
            assert(limits_met(imports[i].kind, memory));
        }
    }
    if imports.len() > 0 && forall|i: int| 0 <= i < imports.len() ==> resolve_request_spec(#[trigger] imports[i], Some(memory)) is Ok {
        assert forall|i: int| 0 <= i < imports.len() implies names_host_memory(#[trigger] imports[i]) by {
            assert(resolve_request_spec(imports[i], Some(memory)) is Ok);
        }
        assert forall|i: int| 0 <= i < imports.len() implies limits_met((#[trigger] imports[i]).kind, memory) by {
            assert(resolve_request_spec(imports[i], Some(memory)) is Ok);
        }
    }
}

/// A module is accepted exactly when it asks for the offered memory, for
/// nothing else, and within its limits.
pub proof fn lemma_accepted_iff_only_host_memory(imports: Seq<ImportRequest>, memory: HostMemory)
    ensures
        resolve_spec(imports, Some(memory)) is Ok <==> {
            &&& imports.len() > 0
            &&& forall|i: int| 0 <= i < imports.len() ==> names_host_memory(#[trigger] imports[i])
            &&& forall|i: int| 0 <= i < imports.len() ==> limits_met((#[trigger] imports[i]).kind, memory)
        },
{
}

} // verus!
