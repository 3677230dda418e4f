//! Linking and invocation: the module meets the arena, the input is staged,
//! and the entry function runs.

use vstd::prelude::*;
use crate::arena::MemoryArena;
use crate::arena::overwrite;
use crate::arena::region;
use crate::error::ExecError;
use crate::error::ExecWasmError;
use crate::error::ResolveError;
use crate::interp::entry_signature;
use crate::interp::instantiate;
use crate::interp::invoke_export;
use crate::interp::run_start;
use crate::interp::scalar_of;
use crate::loader::GuestModule;
use crate::params::Convention;
use crate::params::InvocationParams;
use crate::params::carried;
use crate::resolver::HostMemory;
use crate::resolver::resolve_imports;
use crate::resolver::resolve_spec;
use crate::value::Scalar;
use crate::value::ValueKind;

verus! {

/// A module that was linked against an arena and started. The instance
/// owns the arena: the guest has no memory but this one, and nothing but
/// the instance and its owner reaches it.
pub struct Instance {
    pub(crate) inner: wasmi::ModuleRef,
    pub(crate) arena: MemoryArena,
}

/// The parameter types of an exported function, in order.
#[derive(Clone, Debug)]
pub struct EntrySignature {
    pub params: Vec<ValueKind>,
}

/// What an invocation leaves behind: the value that the entry function
/// returned, and where the guest was told to write its output.
#[derive(Clone, Copy, Debug)]
pub struct RawResult {
    pub returned: Option<Scalar>,
    pub output_offset: u32,
    pub output_len: u32,
}

/// What the host offers a module: its arena under every convention that
/// moves data, nothing under the bare one.
pub open spec fn offered(convention: Convention, memory: HostMemory) -> Option<HostMemory> {
    if convention == Convention::Bare {
        None
    } else {
        Some(memory)
    }
}

/// The entry function exists and takes `arity` 32-bit integers.
pub open spec fn entry_accepts(signature: Option<EntrySignature>, arity: nat) -> bool {
    signature matches Some(s) && s.params@.len() == arity
        && forall|i: int| 0 <= i < s.params@.len() ==> s.params@[i] == ValueKind::I32
}

/// The arena once the payload of a call is in place: the input from offset
/// 0, and the schema right behind it where the convention carries one.
pub open spec fn staged(mem: Seq<u8>, convention: Convention, input: Seq<u8>, schema: Seq<u8>) -> Seq<u8> {
    match convention {
        Convention::Bare => mem,
        Convention::Scalar => overwrite(mem, 0, input),
        Convention::Buffer => overwrite(mem, 0, input),
        Convention::Schema => overwrite(overwrite(mem, 0, input), input.len() as int, schema),
    }
}

/// The regions of a call fit the 32-bit address space and the arena.
pub open spec fn regions_fit(convention: Convention, input_len: nat, schema_len: nat, output_len: nat, arena_len: nat) -> bool {
    let (i, s, o) = carried(convention, input_len, schema_len, output_len);
    i + s + o <= u32::MAX && i + s + o <= arena_len
}

/// Staging puts each payload in its own region and leaves the output region
/// as it was: the regions abut and do not overlap.
pub proof fn lemma_staging_keeps_regions_apart(mem: Seq<u8>, input: Seq<u8>, schema: Seq<u8>, output_len: nat)
    requires
        input.len() + schema.len() + output_len <= mem.len(),
    ensures
        staged(mem, Convention::Schema, input, schema).len() == mem.len(),
        region(staged(mem, Convention::Schema, input, schema), 0, input.len() as int) == Some(input),
        region(staged(mem, Convention::Schema, input, schema), input.len() as int, schema.len() as int) == Some(schema),
        region(staged(mem, Convention::Schema, input, schema), (input.len() + schema.len()) as int, output_len as int)
            == region(mem, (input.len() + schema.len()) as int, output_len as int),
        region(staged(mem, Convention::Buffer, input, schema), 0, input.len() as int) == Some(input),
        region(staged(mem, Convention::Buffer, input, schema), input.len() as int, output_len as int)
            == region(mem, input.len() as int, output_len as int),
{
    let with_schema = staged(mem, Convention::Schema, input, schema);
    let plain = staged(mem, Convention::Buffer, input, schema);
    let i = input.len() as int;
    let s = schema.len() as int;
    let o = output_len as int;
    assert(with_schema.subrange(0, i) =~= input);
    assert(with_schema.subrange(i, i + s) =~= schema);
    assert(with_schema.subrange(i + s, i + s + o) =~= mem.subrange(i + s, i + s + o));
    assert(plain.subrange(0, i) =~= input);
    assert(plain.subrange(i, i + o) =~= mem.subrange(i, i + o));
}

impl Instance {
    /// The arena of the instance.
    pub open(crate) spec fn spec_arena(&self) -> &MemoryArena {
        &self.arena
    }

    /// The arena of the instance.
    #[verifier::when_used_as_spec(spec_arena)]
    pub fn arena(&self) -> (r: &MemoryArena)
        ensures
            r == self.spec_arena(),
    {
        &self.arena
    }
}

/// Instantiates `module` with the arena as each of its imports and runs its
/// start function. The resolver is not asked.
pub(crate) fn attach(module: &GuestModule, arena: MemoryArena) -> (r: Result<Instance, ExecWasmError>)
    ensures
        match r {
            Ok(instance) => {
                &&& instance.arena()@.len() >= arena@.len()
                &&& instance.arena().spec_offer() == arena.spec_offer()
            },
            Err(raised) => raised == ExecWasmError::Resolve(ResolveError::Instantiation)
                || raised == ExecWasmError::Exec(ExecError::Trap),
        },
{
    let mut arena: MemoryArena = arena;
    let not_started = match instantiate(&module.inner, &mut arena.mem, module.imports().len()) {
        Ok(not_started) => not_started,
        Err(_) => {
            return Err(ExecWasmError::Resolve(ResolveError::Instantiation));
        },
    };
    match run_start(not_started, &mut arena.mem) {
        Ok(inner) => Ok(Instance { inner, arena }),
        Err(_) => Err(ExecWasmError::Exec(ExecError::Trap)),
    }
}

/// Resolves the imports of `module` against the arena, instantiates it and
/// runs its start function. The arena passes to the instance.
///
/// The resolver decides first and alone: what it rejects never reaches the
/// interpreter.
pub fn link(module: &GuestModule, arena: MemoryArena, convention: Convention) -> (r: Result<Instance, ExecWasmError>)
    ensures
        match resolve_spec(module.import_list(), offered(convention, arena.spec_offer())) {
            Err(e) => r matches Err(ExecWasmError::Resolve(raised)) && raised == e,
            Ok(()) => match r {
                Ok(instance) => {
                    &&& instance.arena()@.len() >= arena@.len()
                    &&& instance.arena().spec_offer() == arena.spec_offer()
                },
                Err(raised) => raised == ExecWasmError::Resolve(ResolveError::Instantiation)
                    || raised == ExecWasmError::Exec(ExecError::Trap),
            },
        },
{
    let offer: Option<HostMemory> = match convention {
        Convention::Bare => None,
        _ => Some(arena.offer()),
    };
    match resolve_imports(module.imports(), offer) {
        Err(e) => Err(ExecWasmError::Resolve(e)),
        Ok(()) => attach(module, arena),
    }
}

/// Whether a function of this signature can be entered with `arity` 32-bit
/// integers. A missing function, a wrong number of parameters and a
/// parameter of another type are all refused.
pub fn check_entry(signature: &Option<EntrySignature>, arity: usize) -> (r: Result<(), ExecError>)
    ensures
        entry_accepts(*signature, arity as nat) ==> r is Ok,
        !entry_accepts(*signature, arity as nat) ==> r == Err::<(), ExecError>(ExecError::SignatureMismatch),
{
    match signature {
        None => Err(ExecError::SignatureMismatch),
        Some(s) => {
            if s.params.len() != arity {
                return Err(ExecError::SignatureMismatch);
            }
            let mut i: usize = 0;
            while i < s.params.len()
                invariant
                    0 <= i <= s.params@.len(),
                    *signature == Some(*s),
                    s.params@.len() == arity,
                    forall|j: int| 0 <= j < i ==> s.params@[j] == ValueKind::I32,
                decreases s.params.len() - i,
            {
                if s.params[i] != ValueKind::I32 {
                    assert(s.params@[i as int] != ValueKind::I32);
                    return Err(ExecError::SignatureMismatch);
                }
                i = i + 1;
            }
            Ok(())
        },
    }
}

/// Stages the payload of a call in the arena of `instance` and invokes the
/// entry function `exec` with the offsets and lengths of the regions.
///
/// Nothing is written unless every region of the call, the output region
/// included, lies inside the arena.
pub fn invoke(
    instance: &mut Instance,
    convention: Convention,
    input: &[u8],
    schema: &[u8],
    output_len: usize,
) -> (r: Result<RawResult, ExecError>)
    ensures
        final(instance).arena()@.len() >= old(instance).arena()@.len(),
        final(instance).arena().spec_offer() == old(instance).arena().spec_offer(),
        r matches Err(ExecError::MemoryWrite) <==> !regions_fit(
            convention,
            input@.len(),
            schema@.len(),
            output_len as nat,
            old(instance).arena()@.len(),
        ),
        r matches Err(ExecError::MemoryWrite) ==> final(instance).arena()@ == old(instance).arena()@,
        r matches Err(ExecError::SignatureMismatch) ==> final(instance).arena()@ == staged(
            old(instance).arena()@,
            convention,
            input@,
            schema@,
        ),
        r matches Ok(raw) ==> {
            let (i, s, o) = carried(convention, input@.len(), schema@.len(), output_len as nat);
            raw.output_offset == i + s && raw.output_len == o
        },
{
    let params: InvocationParams = match InvocationParams::plan(convention, input.len(), schema.len(), output_len) {
        Some(params) => params,
        None => {
            return Err(ExecError::MemoryWrite);
        },
    };
    if params.end() as u64 > instance.arena.byte_len() {
        return Err(ExecError::MemoryWrite);
    }
    match convention {
        Convention::Bare => {},
        Convention::Scalar | Convention::Buffer => {
            instance.arena.write(0, input)?;
        },
        Convention::Schema => {
            instance.arena.write(0, input)?;
            instance.arena.write(params.schema_offset(), schema)?;
        },
    }
    let args: Vec<i32> = params.args();
    let signature: Option<EntrySignature> = entry_signature(&instance.inner, "exec");
    check_entry(&signature, args.len())?;
    match invoke_export(&instance.inner, &mut instance.arena.mem, "exec", &args) {
        Ok(returned) => {
            let returned: Option<Scalar> = match returned {
                Some(value) => Some(scalar_of(value)),
                None => None,
            };
            Ok(RawResult { returned, output_offset: params.output_offset(), output_len: params.output_len() })
        },
        Err(_) => Err(ExecError::Trap),
    }
}

} // verus!
