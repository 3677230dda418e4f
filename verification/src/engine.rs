//! One call from end to end: load, size, resolve, invoke, extract.

use vstd::prelude::*;
use crate::arena::MemoryArena;
use crate::driver::Instance;
use crate::driver::RawResult;
use crate::driver::attach;
use crate::driver::invoke;
use crate::driver::offered;
use crate::error::ExecError;
use crate::error::ExecWasmError;
use crate::error::ExtractError;
use crate::error::LoadError;
use crate::error::ResolveError;
use crate::error::SizeError;
use crate::extractor::extract_buffer;
use crate::extractor::extract_scalar;
use crate::interp::declared_imports;
use crate::interp::module_is_valid;
use crate::loader::GuestModule;
use crate::loader::load;
use crate::params::Convention;
use crate::params::carried;
use crate::resolver::HostMemory;
use crate::resolver::resolve_imports;
use crate::resolver::resolve_spec;
use crate::sizer::DEFAULT_MAX_PAGES;
use crate::sizer::Limits;
use crate::sizer::lemma_pages_for_is_ceiling;
use crate::sizer::size;
use crate::sizer::size_spec;
use crate::value::Scalar;
use crate::value::ValueKind;

verus! {

/// What a call hands back: the value that the entry function returned, and
/// the bytes of the output region once the guest is done.
#[derive(Debug)]
pub struct Outcome {
    pub returned: Option<Scalar>,
    pub output: Vec<u8>,
}

/// The pages that a call reserves, or the sizer's refusal.
pub open spec fn sized(convention: Convention, input_len: nat, schema_len: nat, output_len: nat, cap: nat) -> Result<nat, SizeError> {
    let (i, s, o) = carried(convention, input_len, schema_len, output_len);
    size_spec(i + s, o, cap)
}

/// The verdict that is due before any guest code runs: the first refusal by
/// the loader, the sizer or the resolver, each a function of the arguments
/// alone; `None` where all three accept.
pub open spec fn verdict(
    binary: Seq<u8>,
    convention: Convention,
    input_len: nat,
    schema_len: nat,
    output_len: nat,
    cap: nat,
) -> Option<ExecWasmError> {
    if !module_is_valid(binary) {
        Some(ExecWasmError::Load(LoadError::Malformed))
    } else {
        match sized(convention, input_len, schema_len, output_len, cap) {
            Err(e) => Some(ExecWasmError::Size(e)),
            Ok(pages) => {
                let memory = HostMemory { pages: pages as u32, max_pages: cap as u32 };
                match resolve_spec(declared_imports(binary)->0, offered(convention, memory)) {
                    Err(e) => Some(ExecWasmError::Resolve(e)),
                    Ok(()) => None,
                }
            },
        }
    }
}

/// The failures that are left once loader, sizer and resolver have
/// accepted: the host cannot commit the arena, the interpreter cannot place
/// the module in it, the entry function does not take the arguments, or the
/// guest traps.
pub open spec fn raised_late(e: ExecWasmError) -> bool {
    ||| e == ExecWasmError::Size(SizeError::Unavailable)
    ||| e == ExecWasmError::Resolve(ResolveError::Instantiation)
    ||| e == ExecWasmError::Exec(ExecError::SignatureMismatch)
    ||| e == ExecWasmError::Exec(ExecError::Trap)
}

/// Runs one call: loads `binary`, reserves an arena for the regions of the
/// call under `limits`, links the module against it, stages `input` and
/// `schema`, invokes `exec` and reads the output region back.
///
/// A refusal by the loader, the sizer or the resolver is reported exactly
/// and in that order. Given their consent the arena holds every region of
/// the call, so that neither staging nor reading back can fail.
pub fn execute(
    binary: &[u8],
    convention: Convention,
    input: &[u8],
    schema: &[u8],
    output_len: usize,
    limits: &Limits,
) -> (r: Result<Outcome, ExecWasmError>)
    ensures
        match verdict(binary@, convention, input@.len(), schema@.len(), output_len as nat, limits.cap()) {
            Some(e) => r matches Err(raised) && raised == e,
            None => match r {
                Ok(outcome) => outcome.output@.len() == carried(convention, input@.len(), schema@.len(), output_len as nat).2,
                Err(raised) => raised_late(raised),
            },
        },
{
    let module: GuestModule = match load(binary) {
        Ok(module) => module,
        Err(e) => {
            return Err(ExecWasmError::Load(e));
        },
    };
    let (i, s, o): (usize, usize, usize) = match convention {
        Convention::Bare => (0, 0, 0),
        Convention::Scalar => (input.len(), 0, 0),
        Convention::Buffer => (input.len(), 0, output_len),
        Convention::Schema => (input.len(), schema.len(), output_len),
    };
    let payload: usize = match i.checked_add(s) {
        Some(payload) => payload,
        None => {
            return Err(ExecWasmError::Size(SizeError::Overflow));
        },
    };
    let pages: u32 = match size(payload, o, limits) {
        Ok(pages) => pages,
        Err(e) => {
            return Err(ExecWasmError::Size(e));
        },
    };
    // The resolver is asked before any memory is committed.
    let cap: u32 = limits.max_pages();
    let memory: HostMemory = HostMemory { pages, max_pages: cap };
    let offer: Option<HostMemory> = match convention {
        Convention::Bare => None,
        _ => Some(memory),
    };
    match resolve_imports(module.imports(), offer) {
        Ok(()) => {},
        Err(e) => {
            return Err(ExecWasmError::Resolve(e));
        },
    }
    proof {
        lemma_pages_for_is_ceiling((payload + o) as nat);
    }
    let arena: MemoryArena = match MemoryArena::allocate(pages, limits) {
        Ok(arena) => arena,
        Err(e) => {
            return Err(ExecWasmError::Size(e));
        },
    };
    let mut instance: Instance = attach(&module, arena)?;
    let raw: RawResult = match invoke(&mut instance, convention, input, schema, output_len) {
        Ok(raw) => raw,
        Err(e) => {
            return Err(ExecWasmError::Exec(e));
        },
    };
    match extract_buffer(instance.arena(), raw.output_offset, raw.output_len as usize) {
        Ok(output) => Ok(Outcome { returned: raw.returned, output }),
        Err(e) => Err(ExecWasmError::Extract(e)),
    }
}

/// Runs a module on `input` under the scalar convention and returns the
/// value of its entry function, which must be of the type `expected`.
pub fn execute_scalar(binary: &[u8], input: &[u8], expected: ValueKind, limits: &Limits) -> (r: Result<Scalar, ExecWasmError>)
    ensures
        match verdict(binary@, Convention::Scalar, input@.len(), 0, 0, limits.cap()) {
            Some(e) => r == Err::<Scalar, ExecWasmError>(e),
            None => match r {
                Ok(value) => value.spec_kind() == expected,
                Err(raised) => raised_late(raised) || raised == ExecWasmError::Extract(ExtractError::TypeMismatch),
            },
        },
{
    let nothing: Vec<u8> = Vec::new();
    let outcome: Outcome = execute(binary, Convention::Scalar, input, nothing.as_slice(), 0, limits)?;
    match extract_scalar(outcome.returned, expected) {
        Ok(value) => Ok(value),
        Err(e) => Err(ExecWasmError::Extract(e)),
    }
}

/// Copies `source` over `target`, which has its length.
fn fill(target: &mut [u8], source: &Vec<u8>)
    requires
        old(target)@.len() == source@.len(),
    ensures
        final(target)@ == source@,
{
    let mut i: usize = 0;
    while i < source.len()
        invariant
            0 <= i <= source.len(),
            target@.len() == source@.len(),
            forall|j: int| 0 <= j < i ==> target@[j] == source@[j],
        decreases source.len() - i,
    {
        target[i] = source[i];
        i = i + 1;
    }
    assert(target@ =~= source@);
}

/// Runs a module that takes no input and returns what its entry function
/// returned. The module gets no memory from the host and must import
/// nothing.
pub fn exec_wasm(binary: &[u8]) -> (r: Result<Option<Scalar>, ExecWasmError>)
    ensures
        match verdict(binary@, Convention::Bare, 0, 0, 0, DEFAULT_MAX_PAGES as nat) {
            Some(e) => r matches Err(raised) && raised == e,
            None => r matches Err(raised) ==> raised_late(raised),
        },
{
    let nothing: Vec<u8> = Vec::new();
    let limits: Limits = Limits::standard();
    match execute(binary, Convention::Bare, nothing.as_slice(), nothing.as_slice(), 0, &limits) {
        Ok(outcome) => Ok(outcome.returned),
        Err(e) => Err(e),
    }
}

/// Runs a module on `data` and fills `result_buffer` with what the guest
/// wrote to its output region, which is as long as the buffer.
///
/// The entry function receives the offset and the length of the input and
/// the offset of the output. On any error the buffer is left as it was.
pub fn exec_wasm_with_data(binary: &[u8], data: &[u8], result_buffer: &mut [u8]) -> (r: Result<(), ExecWasmError>)
    ensures
        final(result_buffer)@.len() == old(result_buffer)@.len(),
        r is Err ==> final(result_buffer)@ == old(result_buffer)@,
        match verdict(binary@, Convention::Buffer, data@.len(), 0, old(result_buffer)@.len(), DEFAULT_MAX_PAGES as nat) {
            Some(e) => r == Err::<(), ExecWasmError>(e),
            None => r matches Err(raised) ==> raised_late(raised),
        },
{
    let nothing: Vec<u8> = Vec::new();
    let limits: Limits = Limits::standard();
    match execute(binary, Convention::Buffer, data, nothing.as_slice(), result_buffer.len(), &limits) {
        Ok(outcome) => {
            fill(result_buffer, &outcome.output);
            Ok(())
        },
        Err(e) => Err(e),
    }
}

/// Runs a module on `input_data` and `input_schema` and fills `output` with
/// what the guest wrote to its output region, which is as long as `output`.
///
/// The entry function receives offset and length of the data, of the schema
/// and of the output, in that order. On any error `output` is left as it was.
pub fn exec_wasm_with_data_and_schema(
    binary: &[u8],
    input_data: &[u8],
    input_schema: &[u8],
    output: &mut [u8],
) -> (r: Result<(), ExecWasmError>)
    ensures
        final(output)@.len() == old(output)@.len(),
        r is Err ==> final(output)@ == old(output)@,
        match verdict(
            binary@,
            Convention::Schema,
            input_data@.len(),
            input_schema@.len(),
            old(output)@.len(),
            DEFAULT_MAX_PAGES as nat,
        ) {
            Some(e) => r == Err::<(), ExecWasmError>(e),
            None => r matches Err(raised) ==> raised_late(raised),
        },
{
    let limits: Limits = Limits::standard();
    match execute(binary, Convention::Schema, input_data, input_schema, output.len(), &limits) {
        Ok(outcome) => {
            fill(output, &outcome.output);
            Ok(())
        },
        Err(e) => Err(e),
    }
}

} // verus!
