//! The calling convention: where each region of a call lies in the arena and
//! which integers the entry function receives.

use vstd::prelude::*;

verus! {

/// The shape of a call.
#[derive(Clone, Copy, Debug, PartialEq, Eq, Structural)]
pub enum Convention {
    /// No input; the result is the entry function's return value.
    Bare,
    /// An input region; the result is the entry function's return value.
    Scalar,
    /// An input region and an output region that the guest fills.
    Buffer,
    /// An input region, a schema region and an output region.
    Schema,
}

/// The regions of one call. They lie back to back from offset 0: input, then
/// schema, then output.
#[derive(Clone, Copy, Debug)]
pub struct InvocationParams {
    convention: Convention,
    input_len: u32,
    schema_len: u32,
    output_len: u32,
}

/// The lengths that a convention carries; the others count as zero.
pub open spec fn carried(convention: Convention, input_len: nat, schema_len: nat, output_len: nat) -> (nat, nat, nat) {
    match convention {
        Convention::Bare => (0, 0, 0),
        Convention::Scalar => (input_len, 0, 0),
        Convention::Buffer => (input_len, 0, output_len),
        Convention::Schema => (input_len, schema_len, output_len),
    }
}

/// The 32-bit integer that stands for `value` at the guest boundary: the
/// same bit pattern, read as signed.
pub open spec fn wire(value: u32) -> i32 {
    if value <= 0x7fff_ffff {
        value as i32
    } else {
        (value - 0x1_0000_0000) as i32
    }
}

/// Converts an offset or a length to the integer the guest receives.
pub fn to_wire(value: u32) -> (r: i32)
    ensures
        r == wire(value),
{
    if value <= 0x7fff_ffff {
        value as i32
    } else {
        ((value - 0x8000_0000) as i32) + i32::MIN
    }
}

impl InvocationParams {
    /// The three lengths fit the 32-bit address space together, and a
    /// convention's missing regions are empty.
    #[verifier::type_invariant]
    spec fn consistent(&self) -> bool {
        &&& self.input_len + self.schema_len + self.output_len <= u32::MAX
        &&& carried(self.convention, self.input_len as nat, self.schema_len as nat, self.output_len as nat)
            == (self.input_len as nat, self.schema_len as nat, self.output_len as nat)
    }

    pub closed spec fn spec_convention(&self) -> Convention {
        self.convention
    }

    pub closed spec fn spec_input_len(&self) -> nat {
        self.input_len as nat
    }

    pub closed spec fn spec_schema_len(&self) -> nat {
        self.schema_len as nat
    }

    pub closed spec fn spec_output_len(&self) -> nat {
        self.output_len as nat
    }

    /// The input starts the arena.
    pub open spec fn spec_input_offset(&self) -> nat {
        0
    }

    /// The schema abuts the input.
    pub open spec fn spec_schema_offset(&self) -> nat {
        self.spec_input_offset() + self.spec_input_len()
    }

    /// The output abuts the schema.
    pub open spec fn spec_output_offset(&self) -> nat {
        self.spec_schema_offset() + self.spec_schema_len()
    }

    /// The first byte past the output.
    pub open spec fn spec_end(&self) -> nat {
        self.spec_output_offset() + self.spec_output_len()
    }

    /// The integers handed to the entry function, in order.
    pub open spec fn spec_args(&self) -> Seq<i32> {
        let input_offset = wire(self.spec_input_offset() as u32);
        let input_len = wire(self.spec_input_len() as u32);
        let schema_offset = wire(self.spec_schema_offset() as u32);
        let schema_len = wire(self.spec_schema_len() as u32);
        let output_offset = wire(self.spec_output_offset() as u32);
        let output_len = wire(self.spec_output_len() as u32);
        match self.spec_convention() {
            Convention::Bare => seq![],
            Convention::Scalar => seq![input_offset, input_len],
            Convention::Buffer => seq![input_offset, input_len, output_offset],
            Convention::Schema => seq![input_offset, input_len, schema_offset, schema_len, output_offset, output_len],
        }
    }

    /// Lays the regions of a call out, or returns `None` where they do not
    /// fit the 32-bit address space.
    pub fn plan(convention: Convention, input_len: usize, schema_len: usize, output_len: usize) -> (r: Option<InvocationParams>)
        ensures
            ({
                let (i, s, o) = carried(convention, input_len as nat, schema_len as nat, output_len as nat);
                &&& r is Some <==> i + s + o <= u32::MAX
                &&& r matches Some(p) ==> {
                    &&& p.spec_convention() == convention
                    &&& p.spec_input_len() == i
                    &&& p.spec_schema_len() == s
                    &&& p.spec_output_len() == o
                }
            }),
    {
        let (i, s, o): (usize, usize, usize) = match convention {
            Convention::Bare => (0, 0, 0),
            Convention::Scalar => (input_len, 0, 0),
            Convention::Buffer => (input_len, 0, output_len),
            Convention::Schema => (input_len, schema_len, output_len),
        };
        let limit: usize = u32::MAX as usize;
        if i > limit || s > limit - i || o > limit - i - s {
            None
        } else {
            Some(InvocationParams { convention, input_len: i as u32, schema_len: s as u32, output_len: o as u32 })
        }
    }

    /// The shape of the call.
    #[verifier::when_used_as_spec(spec_convention)]
    pub fn convention(&self) -> (r: Convention)
        ensures
            r == self.spec_convention(),
    {
        self.convention
    }

    /// Bytes of input.
    pub fn input_len(&self) -> (r: u32)
        ensures
            r == self.spec_input_len(),
    {
        self.input_len
    }

    /// Where the schema starts.
    pub fn schema_offset(&self) -> (r: u32)
        ensures
            r == self.spec_schema_offset(),
    {
        self.input_len
    }

    /// Bytes of schema.
    pub fn schema_len(&self) -> (r: u32)
        ensures
            r == self.spec_schema_len(),
    {
        self.schema_len
    }

    /// Where the output starts.
    pub fn output_offset(&self) -> (r: u32)
        ensures
            r == self.spec_output_offset(),
    {
        proof {
            use_type_invariant(self);
        }
        self.input_len + self.schema_len
    }

    /// Bytes reserved for output.
    pub fn output_len(&self) -> (r: u32)
        ensures
            r == self.spec_output_len(),
    {
        self.output_len
    }

    /// The first offset past the output.
    pub fn end(&self) -> (r: u32)
        ensures
            r == self.spec_end(),
    {
        proof {
            use_type_invariant(self);
        }
        self.input_len + self.schema_len + self.output_len
    }

    /// The integers handed to the entry function, in order.
    pub fn args(&self) -> (r: Vec<i32>)
        ensures
            r@ == self.spec_args(),
    {
        proof {
            use_type_invariant(self);
        }
        let input_offset: i32 = to_wire(0);
        let input_len: i32 = to_wire(self.input_len);
        let schema_offset: i32 = to_wire(self.schema_offset());
        let schema_len: i32 = to_wire(self.schema_len);
        let output_offset: i32 = to_wire(self.output_offset());
        let output_len: i32 = to_wire(self.output_len);
        let mut args: Vec<i32> = Vec::new();
        match self.convention {
            Convention::Bare => {},
            Convention::Scalar => {
                args.push(input_offset);
                args.push(input_len);
            },
            Convention::Buffer => {
                args.push(input_offset);
                args.push(input_len);
                args.push(output_offset);
            },
            Convention::Schema => {
                args.push(input_offset);
                args.push(input_len);
                args.push(schema_offset);
                args.push(schema_len);
                args.push(output_offset);
                args.push(output_len);
            },
        }
        assert(args@ =~= self.spec_args());
        args
    }
}

} // verus!
