//! The interpreter, as the engine sees it.
//!
//! Everything here is trusted: the contracts restate what the interpreter's
//! source shows and are not proved. The rest of the crate reaches the
//! interpreter through these items only.
//!
//! A linear memory is shared between the host and the instance that it was
//! linked to. Every item through which guest code can run therefore takes
//! the memory by mutable reference, and says of its bytes afterwards only
//! that there are no fewer of them. The crate hands an instance no memory
//! but the one it was instantiated with: an `Instance` owns its arena. A
//! guest that never returns keeps the call from returning; the contracts
//! speak of the calls that return.

use vstd::prelude::*;
use crate::arena::overwrite;
use crate::driver::EntrySignature;
use crate::resolver::ImportKind;
use crate::resolver::ImportRequest;
use crate::value::Scalar;
use crate::value::ValueKind;

verus! {

#[verifier::external_type_specification]
#[verifier::external_body]
pub struct ExModule(wasmi::Module);

#[verifier::external_type_specification]
#[verifier::external_body]
pub struct ExMemoryRef(wasmi::MemoryRef);

#[verifier::external_type_specification]
#[verifier::external_body]
pub struct ExModuleRef(wasmi::ModuleRef);

#[verifier::external_type_specification]
#[verifier::external_body]
pub struct ExNotStartedModuleRef<'a>(wasmi::NotStartedModuleRef<'a>);

#[verifier::external_type_specification]
#[verifier::external_body]
pub struct ExError(wasmi::Error);

#[verifier::external_type_specification]
#[verifier::external_body]
pub struct ExTrap(wasmi::Trap);

#[verifier::external_type_specification]
#[verifier::external_body]
pub struct ExRuntimeValue(wasmi::RuntimeValue);

/// Whether the interpreter accepts `bytes` as a module.
pub uninterp spec fn module_is_valid(bytes: Seq<u8>) -> bool;

/// The import section of the module that `bytes` encode, in order; `None`
/// where they do not decode.
pub uninterp spec fn declared_imports(bytes: Seq<u8>) -> Option<Seq<ImportRequest>>;

/// The bytes that a linear memory holds.
pub uninterp spec fn memory_bytes(mem: wasmi::MemoryRef) -> Seq<u8>;

/// `wasmi::Module::from_buffer`: decodes and validates a module. The result
/// is a function of the bytes alone.
#[verifier::external_body]
pub(crate) fn load_module(bytes: &[u8]) -> (r: Result<wasmi::Module, wasmi::Error>)
    ensures
        r is Ok <==> module_is_valid(bytes@),
{
    wasmi::Module::from_buffer(bytes)
}

/// `parity_wasm::deserialize_buffer`, the decoder that the interpreter
/// itself loads a module with, and the entries of the import section of what
/// it decoded, each by its two names and its kind. The result is a function
/// of the bytes alone, and bytes that the interpreter accepts do decode.
#[verifier::external_body]
pub(crate) fn read_imports(bytes: &[u8]) -> (r: Option<Vec<ImportRequest>>)
    ensures
        r matches Some(list) ==> declared_imports(bytes@) == Some(list@),
        r is None ==> declared_imports(bytes@) is None,
        module_is_valid(bytes@) ==> r is Some,
{
    let module: parity_wasm::elements::Module = parity_wasm::deserialize_buffer(bytes).ok()?;
    let entries = module.import_section().map(|s| s.entries()).unwrap_or(&[]);
    Some(entries.iter().map(|e| ImportRequest {
        namespace: e.module().to_string(),
        name: e.field().to_string(),
        kind: match e.external() {
            parity_wasm::elements::External::Function(_) => ImportKind::Function,
            parity_wasm::elements::External::Table(_) => ImportKind::Table,
            parity_wasm::elements::External::Memory(m) => ImportKind::Memory { min_pages: m.limits().initial(), max_pages: m.limits().maximum() },
            parity_wasm::elements::External::Global(_) => ImportKind::Global,
        },
    }).collect())
}

/// `wasmi::MemoryInstance::alloc`: a fresh memory of `pages` pages that can
/// grow to `max_pages`. Memory that was allocated is zeroed.
#[verifier::external_body]
pub(crate) fn alloc_memory(pages: u32, max_pages: u32) -> (r: Result<wasmi::MemoryRef, wasmi::Error>)
    ensures
        r matches Ok(mem) ==> {
            &&& memory_bytes(mem).len() == pages as nat * 65536
            &&& forall|i: int| 0 <= i < memory_bytes(mem).len() ==> memory_bytes(mem)[i] == 0u8
        },
{
    let initial = wasmi::memory_units::Pages(pages as usize);
    let maximum = wasmi::memory_units::Pages(max_pages as usize);
    wasmi::MemoryInstance::alloc(initial, Some(maximum))
}

/// `wasmi::MemoryInstance::set`: copies `data` into the memory at `offset`,
/// or fails and changes nothing where the region reaches past the end.
#[verifier::external_body]
pub(crate) fn memory_set(mem: &mut wasmi::MemoryRef, offset: u32, data: &[u8]) -> (r: Result<(), wasmi::Error>)
    ensures
        r is Ok <==> offset as nat + data@.len() <= memory_bytes(*old(mem)).len(),
        r is Ok ==> memory_bytes(*final(mem)) == overwrite(memory_bytes(*old(mem)), offset as int, data@),
        r is Err ==> memory_bytes(*final(mem)) == memory_bytes(*old(mem)),
{
    mem.set(offset, data)
}

/// `wasmi::MemoryInstance::current_size`: the pages that the memory has
/// now. A memory is always a whole number of pages long.
#[verifier::external_body]
pub(crate) fn memory_pages(mem: &wasmi::MemoryRef) -> (pages: usize)
    ensures
        pages as nat * 65536 == memory_bytes(*mem).len(),
        pages <= 65536,
{
    mem.current_size().0
}

/// `wasmi::MemoryInstance::get`: a copy of `len` bytes of the memory from
/// `offset`, or an error where the region reaches past the end.
#[verifier::external_body]
pub(crate) fn memory_get(mem: &wasmi::MemoryRef, offset: u32, len: usize) -> (r: Result<Vec<u8>, wasmi::Error>)
    ensures
        r is Ok <==> offset as nat + len as nat <= memory_bytes(*mem).len(),
        r matches Ok(bytes) ==> bytes@ == memory_bytes(*mem).subrange(offset as int, offset as int + len as int),
{
    mem.get(offset, len)
}

/// `wasmi::ModuleInstance::with_externvals`: instantiates `module` with
/// `copies` references to `mem` as its imports, in order. Instantiation
/// copies the module's data segments into the memory and keeps its size.
#[verifier::external_body]
pub(crate) fn instantiate<'a>(module: &'a wasmi::Module, mem: &mut wasmi::MemoryRef, copies: usize) -> (r: Result<wasmi::NotStartedModuleRef<'a>, wasmi::Error>)
    ensures
        memory_bytes(*final(mem)).len() == memory_bytes(*old(mem)).len(),
{
    let externs = vec![wasmi::ExternVal::Memory(mem.clone()); copies];
    wasmi::ModuleInstance::with_externvals(module, externs.iter())
}

/// `wasmi::NotStartedModuleRef::run_start`: runs the module's start
/// function, if it has one, with no host functions. A memory never shrinks.
#[verifier::external_body]
pub(crate) fn run_start(instance: wasmi::NotStartedModuleRef<'_>, mem: &mut wasmi::MemoryRef) -> (r: Result<wasmi::ModuleRef, wasmi::Trap>)
    ensures
        memory_bytes(*final(mem)).len() >= memory_bytes(*old(mem)).len(),
{
    instance.run_start(&mut wasmi::NopExternals)
}

/// `wasmi::ModuleInstance::invoke_export`: calls the exported function
/// `name` with `args` as 32-bit integers and no host functions. A memory
/// never shrinks.
#[verifier::external_body]
pub(crate) fn invoke_export(instance: &wasmi::ModuleRef, mem: &mut wasmi::MemoryRef, name: &str, args: &Vec<i32>) -> (r: Result<Option<wasmi::RuntimeValue>, wasmi::Error>)
    ensures
        memory_bytes(*final(mem)).len() >= memory_bytes(*old(mem)).len(),
{
    let params: Vec<wasmi::RuntimeValue> = args.iter().map(|a| wasmi::RuntimeValue::I32(*a)).collect();
    instance.invoke_export(name, &params, &mut wasmi::NopExternals)
}

/// `wasmi::RuntimeValue`, variant by variant; a float by its bit pattern
/// (`to_bits`).
#[verifier::external_body]
pub(crate) fn scalar_of(value: wasmi::RuntimeValue) -> (r: Scalar)
{
    match value {
        wasmi::RuntimeValue::I32(v) => Scalar::I32(v),
        wasmi::RuntimeValue::I64(v) => Scalar::I64(v),
        wasmi::RuntimeValue::F32(v) => Scalar::F32(v.to_bits()),
        wasmi::RuntimeValue::F64(v) => Scalar::F64(v.to_bits()),
    }
}

/// `wasmi::ModuleInstance::export_by_name` and `wasmi::FuncInstance::signature`:
/// the parameter types of the function that `instance` exports as `name`;
/// `None` where it exports no function of that name.
#[verifier::external_body]
pub(crate) fn entry_signature(instance: &wasmi::ModuleRef, name: &str) -> (r: Option<EntrySignature>)
{
    let kind_of = |t: &wasmi::ValueType| match t {
        wasmi::ValueType::I32 => ValueKind::I32,
        wasmi::ValueType::I64 => ValueKind::I64,
        wasmi::ValueType::F32 => ValueKind::F32,
        wasmi::ValueType::F64 => ValueKind::F64,
    };
    let export = instance.export_by_name(name)?;
    let signature = export.as_func()?.signature();
    Some(EntrySignature { params: signature.params().iter().map(kind_of).collect() })
}

} // verus!
