//! Loading: from bytes to a validated module, with no side effects.

use vstd::prelude::*;
use crate::error::LoadError;
use crate::interp::declared_imports;
use crate::interp::load_module;
use crate::interp::module_is_valid;
use crate::interp::read_imports;
use crate::resolver::ImportRequest;

verus! {

/// A parsed, validated module, together with the imports it declares.
pub struct GuestModule {
    pub(crate) inner: wasmi::Module,
    pub(crate) imports: Vec<ImportRequest>,
}

impl GuestModule {
    /// The import section of the module, in order.
    pub closed spec fn import_list(&self) -> Seq<ImportRequest> {
        self.imports@
    }

    /// The import section of the module, in order.
    pub fn imports(&self) -> (r: &Vec<ImportRequest>)
        ensures
            r@ == self.import_list(),
    {
        &self.imports
    }
}

/// Loads a module from `bytes`. Succeeds exactly on the bytes that the
/// interpreter accepts as a valid module.
pub fn load(bytes: &[u8]) -> (r: Result<GuestModule, LoadError>)
    ensures
        r is Ok <==> module_is_valid(bytes@),
        r matches Ok(module) ==> declared_imports(bytes@) == Some(module.import_list()),
        r matches Err(e) ==> e == LoadError::Malformed,
{
    let inner: wasmi::Module = match load_module(bytes) {
        Ok(inner) => inner,
        Err(_) => {
            return Err(LoadError::Malformed);
        },
    };
    match read_imports(bytes) {
        Some(imports) => Ok(GuestModule { inner, imports }),
        None => Err(LoadError::Malformed),
    }
}

} // verus!
