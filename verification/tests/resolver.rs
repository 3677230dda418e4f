//! The resolver on concrete import sections.

use wasm_sandbox::error::ResolveError;
use wasm_sandbox::resolver::{
    is_host_memory_request, meets_limits, resolve_imports, resolve_request, HostMemory, ImportKind, ImportRequest,
};

fn request(namespace: &str, name: &str, kind: ImportKind) -> ImportRequest {
    ImportRequest { namespace: namespace.to_string(), name: name.to_string(), kind }
}

fn memory(min_pages: u32, max_pages: Option<u32>) -> ImportKind {
    ImportKind::Memory { min_pages, max_pages }
}

fn host_memory(min_pages: u32) -> ImportRequest {
    request("env", "memory", memory(min_pages, None))
}

const OFFER: HostMemory = HostMemory { pages: 2, max_pages: 100 };

#[test]
fn host_memory_is_known_by_both_names_and_its_kind() {
    assert!(is_host_memory_request(&host_memory(1)));
    assert!(is_host_memory_request(&request("env", "memory", memory(9, Some(9)))));
    assert!(!is_host_memory_request(&request("env", "memory", ImportKind::Function)));
    assert!(!is_host_memory_request(&request("env", "memory", ImportKind::Table)));
    assert!(!is_host_memory_request(&request("env", "memory", ImportKind::Global)));
    assert!(!is_host_memory_request(&request("env", "memory2", memory(1, None))));
    assert!(!is_host_memory_request(&request("env", "memor", memory(1, None))));
    assert!(!is_host_memory_request(&request("env", "", memory(1, None))));
    assert!(!is_host_memory_request(&request("ENV", "memory", memory(1, None))));
    assert!(!is_host_memory_request(&request("", "memory", memory(1, None))));
    assert!(!is_host_memory_request(&request("memory", "env", memory(1, None))));
}

#[test]
fn limits_are_met_by_size_and_bound() {
    assert!(meets_limits(memory(0, None), OFFER));
    assert!(meets_limits(memory(2, None), OFFER));
    assert!(!meets_limits(memory(3, None), OFFER));
    assert!(meets_limits(memory(2, Some(100)), OFFER));
    assert!(meets_limits(memory(2, Some(101)), OFFER));
    assert!(!meets_limits(memory(2, Some(99)), OFFER));
    assert!(!meets_limits(memory(3, Some(100)), OFFER));
    assert!(!meets_limits(ImportKind::Function, OFFER));
    assert!(!meets_limits(ImportKind::Table, OFFER));
    assert!(!meets_limits(ImportKind::Global, OFFER));
    assert!(meets_limits(memory(0, Some(0)), HostMemory { pages: 0, max_pages: 0 }));
}

#[test]
fn single_request_is_answered() {
    assert_eq!(resolve_request(&host_memory(1), Some(OFFER)), Ok(()));
    assert_eq!(resolve_request(&host_memory(3), Some(OFFER)), Err(ResolveError::LimitsMismatch));
    assert_eq!(
        resolve_request(&request("env", "table", ImportKind::Table), Some(OFFER)),
        Err(ResolveError::UnknownImport)
    );
    assert_eq!(resolve_request(&host_memory(1), None), Err(ResolveError::UnknownImport));
}

#[test]
fn module_must_ask_for_the_memory() {
    assert_eq!(resolve_imports(&vec![], Some(OFFER)), Err(ResolveError::UnknownImport));
    assert_eq!(resolve_imports(&vec![host_memory(1)], Some(OFFER)), Ok(()));
    assert_eq!(resolve_imports(&vec![host_memory(2)], Some(OFFER)), Ok(()));
}

#[test]
fn module_must_ask_for_nothing_else() {
    let strangers = [
        request("env", "log", ImportKind::Function),
        request("env", "memory", ImportKind::Function),
        request("env", "table", ImportKind::Table),
        request("env", "g", ImportKind::Global),
        request("wasi", "memory", memory(1, None)),
    ];
    for stranger in strangers {
        assert_eq!(resolve_imports(&vec![stranger.clone()], Some(OFFER)), Err(ResolveError::UnknownImport));
        assert_eq!(
            resolve_imports(&vec![host_memory(1), stranger.clone()], Some(OFFER)),
            Err(ResolveError::UnknownImport)
        );
        assert_eq!(
            resolve_imports(&vec![stranger, host_memory(1)], Some(OFFER)),
            Err(ResolveError::UnknownImport)
        );
    }
}

#[test]
fn unknown_import_is_reported_before_a_mismatch() {
    let stranger = request("env", "log", ImportKind::Function);
    assert_eq!(resolve_imports(&vec![host_memory(3)], Some(OFFER)), Err(ResolveError::LimitsMismatch));
    assert_eq!(
        resolve_imports(&vec![host_memory(3), stranger.clone()], Some(OFFER)),
        Err(ResolveError::UnknownImport)
    );
    assert_eq!(resolve_imports(&vec![stranger, host_memory(3)], Some(OFFER)), Err(ResolveError::UnknownImport));
    assert_eq!(
        resolve_imports(&vec![host_memory(1), host_memory(3)], Some(OFFER)),
        Err(ResolveError::LimitsMismatch)
    );
}

#[test]
fn without_an_offer_a_module_must_import_nothing() {
    assert_eq!(resolve_imports(&vec![], None), Ok(()));
    assert_eq!(resolve_imports(&vec![host_memory(0)], None), Err(ResolveError::UnknownImport));
    assert_eq!(
        resolve_imports(&vec![request("env", "log", ImportKind::Function)], None),
        Err(ResolveError::UnknownImport)
    );
}
