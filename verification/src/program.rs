use vstd::prelude::*;
use vstd::string::StringExecFns;
use crate::operation::Operation;

verus! {

/// Characters of the single decimal digit `d`.
pub open spec fn digit_seq(d: nat) -> Seq<char> {
    if d == 0 {
        "0"@
    } else if d == 1 {
        "1"@
    } else if d == 2 {
        "2"@
    } else if d == 3 {
        "3"@
    } else if d == 4 {
        "4"@
    } else if d == 5 {
        "5"@
    } else if d == 6 {
        "6"@
    } else if d == 7 {
        "7"@
    } else if d == 8 {
        "8"@
    } else {
        "9"@
    }
}

/// Decimal rendering of `n`, most significant digit first, no leading
/// zeros (except for `n == 0` itself).
pub open spec fn dec_seq(n: nat) -> Seq<char>
    decreases n,
{
    if n < 10 {
        digit_seq(n)
    } else {
        dec_seq(n / 10) + digit_seq(n % 10)
    }
}

/// The disassembly line of one instruction: opcode name, operands
/// (`functor/arity` for the structure opcodes, the register as `Xr`), and
/// a trailing newline.
pub open spec fn op_line(op: Operation) -> Seq<char> {
    match op {
        Operation::PutStructure(f, a, r) => "PutStructure "@ + dec_seq(f as nat) + "/"@ + dec_seq(
            a as nat,
        ) + ", X"@ + dec_seq(r as nat) + "\n"@,
        Operation::SetVariable(r) => "SetVariable X"@ + dec_seq(r as nat) + "\n"@,
        Operation::SetValue(r) => "SetValue X"@ + dec_seq(r as nat) + "\n"@,
        Operation::GetStructure(f, a, r) => "GetStructure "@ + dec_seq(f as nat) + "/"@ + dec_seq(
            a as nat,
        ) + ", X"@ + dec_seq(r as nat) + "\n"@,
        Operation::UnifyVariable(r) => "UnifyVariable X"@ + dec_seq(r as nat) + "\n"@,
        Operation::UnifyValue(r) => "UnifyValue X"@ + dec_seq(r as nat) + "\n"@,
    }
}

/// The disassembly of a whole instruction sequence: one line per
/// instruction, in order.
pub open spec fn assembly_seq(ops: Seq<Operation>) -> Seq<char>
    decreases ops.len(),
{
    if ops.len() == 0 {
        Seq::empty()
    } else {
        assembly_seq(ops.drop_last()) + op_line(ops.last())
    }
}

/// Appends the single decimal digit `d` to `out`.
fn append_digit(out: &mut String, d: usize)
    requires
        d < 10,
    ensures
        final(out)@ == old(out)@ + digit_seq(d as nat),
{
    if d == 0 {
        out.append("0");
    } else if d == 1 {
        out.append("1");
    } else if d == 2 {
        out.append("2");
    } else if d == 3 {
        out.append("3");
    } else if d == 4 {
        out.append("4");
    } else if d == 5 {
        out.append("5");
    } else if d == 6 {
        out.append("6");
    } else if d == 7 {
        out.append("7");
    } else if d == 8 {
        out.append("8");
    } else {
        out.append("9");
    }
}

/// Appends the decimal rendering of `n` to `out`.
fn append_dec(out: &mut String, n: usize)
    ensures
        final(out)@ == old(out)@ + dec_seq(n as nat),
    decreases n,
{
    if n >= 10 {
        append_dec(out, n / 10);
        append_digit(out, n % 10);
        proof {
            assert(out@ =~= old(out)@ + dec_seq(n as nat));
        }
    } else {
        append_digit(out, n);
    }
}

/// Appends the disassembly line of `op` to `out`.
fn append_line(out: &mut String, op: &Operation)
    ensures
        final(out)@ == old(out)@ + op_line(*op),
{
    match op {
        Operation::PutStructure(f, a, r) => {
            out.append("PutStructure ");
            append_dec(out, *f);
            out.append("/");
            append_dec(out, *a);
            out.append(", X");
            append_dec(out, *r);
            out.append("\n");
        },
        Operation::SetVariable(r) => {
            out.append("SetVariable X");
            append_dec(out, *r);
            out.append("\n");
        },
        Operation::SetValue(r) => {
            out.append("SetValue X");
            append_dec(out, *r);
            out.append("\n");
        },
        Operation::GetStructure(f, a, r) => {
            out.append("GetStructure ");
            append_dec(out, *f);
            out.append("/");
            append_dec(out, *a);
            out.append(", X");
            append_dec(out, *r);
            out.append("\n");
        },
        Operation::UnifyVariable(r) => {
            out.append("UnifyVariable X");
            append_dec(out, *r);
            out.append("\n");
        },
        Operation::UnifyValue(r) => {
            out.append("UnifyValue X");
            append_dec(out, *r);
            out.append("\n");
        },
    }
    proof {
        assert(out@ =~= old(out)@ + op_line(*op));
    }
}

/// An immutable, flat program: the instruction sequence a builder
/// accumulated, finalized and never mutated afterwards.
pub struct Program {
    ops: Vec<Operation>,
}

impl View for Program {
    type V = Seq<Operation>;

    closed spec fn view(&self) -> Seq<Operation> {
        self.ops@
    }
}

impl Program {
    /// Renders a human-readable disassembly: one line per instruction,
    /// opcode and operands, in program order.
    pub fn assembly(&self) -> (r: String)
        ensures
            r@ == assembly_seq(self@),
    {
        let mut out = String::new();
        let mut i: usize = 0;
        while i < self.ops.len()
            invariant
                i <= self.ops.len(),
                out@ == assembly_seq(self.ops@.take(i as int)),
            decreases self.ops.len() - i,
        {
            append_line(&mut out, &self.ops[i]);
            proof {
                assert(self.ops@.take(i + 1).drop_last() =~= self.ops@.take(i as int));
                assert(self.ops@.take(i + 1).last() == self.ops@[i as int]);
            }
            i = i + 1;
        }
        proof {
            assert(self.ops@.take(self.ops@.len() as int) =~= self.ops@);
        }
        out
    }

    /// The instructions of the program, in order.
    pub fn operations(&self) -> (r: &Vec<Operation>)
        ensures
            r@ == self@,
    {
        &self.ops
    }

    /// Number of instructions in the program.
    pub fn len(&self) -> (r: usize)
        ensures
            r == self@.len(),
    {
        self.ops.len()
    }
}

/// Assembler for a program: collects instructions in emission order until
/// [`ProgramBuilder::build`] finalizes them into an immutable [`Program`].
pub struct ProgramBuilder {
    ops: Vec<Operation>,
}

impl View for ProgramBuilder {
    type V = Seq<Operation>;

    closed spec fn view(&self) -> Seq<Operation> {
        self.ops@
    }
}

impl ProgramBuilder {
    /// A builder holding no instructions yet.
    pub fn new() -> (r: Self)
        ensures
            r@ == Seq::<Operation>::empty(),
    {
        ProgramBuilder { ops: Vec::new() }
    }

    /// Emits `PutStructure(ident, arity, register)`.
    pub fn put_structure(&mut self, ident: usize, arity: usize, register: usize)
        ensures
            final(self)@ == old(self)@.push(Operation::PutStructure(ident, arity, register)),
    {
        self.ops.push(Operation::PutStructure(ident, arity, register));
    }

    /// Emits `SetVariable(register)`.
    pub fn set_variable(&mut self, register: usize)
        ensures
            final(self)@ == old(self)@.push(Operation::SetVariable(register)),
    {
        self.ops.push(Operation::SetVariable(register));
    }

    /// Emits `SetValue(register)`.
    pub fn set_value(&mut self, register: usize)
        ensures
            final(self)@ == old(self)@.push(Operation::SetValue(register)),
    {
        self.ops.push(Operation::SetValue(register));
    }

    /// Finalizes the accumulated instructions into an immutable program.
    pub fn build(self) -> (r: Program)
        ensures
            r@ == self@,
    {
        Program { ops: self.ops }
    }
}

impl Default for ProgramBuilder {
    fn default() -> (r: Self)
        ensures
            r@ == Seq::<Operation>::empty(),
    {
        ProgramBuilder { ops: Vec::new() }
    }
}

} // verus!
