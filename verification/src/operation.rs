use vstd::prelude::*;

verus! {

/// One instruction of the term-construction machine.
///
/// The two structure opcodes carry a functor identifier, an arity and a
/// register; the four register opcodes carry a single register index.
/// `Set*` instructions build a fresh term (query side), `Get*`/`Unify*`
/// instructions match against an existing one (program side). The type is
/// pure data: nothing here executes or fails.
#[derive(Debug, Clone, Copy, PartialEq, Eq, Structural)]
pub enum Operation {
    /// Introduce a fresh structure cell: functor identifier, arity,
    /// destination register.
    PutStructure(usize, usize, usize),
    /// First occurrence of a variable: bind a fresh unbound cell in the
    /// given register.
    SetVariable(usize),
    /// Later occurrence: reference the cell already defined in the given
    /// register.
    SetValue(usize),
    /// Match a structure cell: functor identifier, arity, source register.
    GetStructure(usize, usize, usize),
    /// Match-side first occurrence of a variable in the given register.
    UnifyVariable(usize),
    /// Match-side later occurrence of the cell in the given register.
    UnifyValue(usize),
}

impl Operation {
    /// Encoded width of the instruction in machine words: the opcode word
    /// plus one word per operand, independent of the operand values.
    pub open spec fn spec_size(self) -> usize {
        match self {
            Operation::PutStructure(_, _, _) => 4,
            Operation::SetVariable(_) => 2,
            Operation::SetValue(_) => 2,
            Operation::GetStructure(_, _, _) => 4,
            Operation::UnifyVariable(_) => 2,
            Operation::UnifyValue(_) => 2,
        }
    }

    /// Number of machine words the program counter moves past after the
    /// instruction executes. Defined per variant, on purpose independently
    /// of [`Self::spec_size`]: a future branching opcode would advance
    /// differently from its encoded width.
    pub open spec fn spec_advance(self) -> usize {
        match self {
            Operation::PutStructure(_, _, _) => 4,
            Operation::SetVariable(_) => 2,
            Operation::SetValue(_) => 2,
            Operation::GetStructure(_, _, _) => 4,
            Operation::UnifyVariable(_) => 2,
            Operation::UnifyValue(_) => 2,
        }
    }

    /// True when this instruction is the one that defines register `r`,
    /// that is, writes a fresh cell into it.
    pub open spec fn spec_defines(self, r: usize) -> bool {
        match self {
            Operation::PutStructure(_, _, dest) => dest == r,
            Operation::SetVariable(dest) => dest == r,
            _ => false,
        }
    }

    /// Instruction size: the number of encoded machine words.
    pub fn size(&self) -> (r: usize)
        ensures
            r == self.spec_size(),
    {
        match self {
            Operation::PutStructure(_, _, _) => 4,
            Operation::SetVariable(_) => 2,
            Operation::SetValue(_) => 2,
            Operation::GetStructure(_, _, _) => 4,
            Operation::UnifyVariable(_) => 2,
            Operation::UnifyValue(_) => 2,
        }
    }

    /// Number of machine words to advance after this instruction executes.
    /// Every opcode in this subset leaves control flow alone, so the
    /// advance is its encoded size.
    pub fn advance(&self) -> (r: usize)
        ensures
            r == self.spec_advance(),
    {
        match self {
            Operation::PutStructure(_, _, _)
            | Operation::SetVariable(_)
            | Operation::SetValue(_)
            | Operation::GetStructure(_, _, _)
            | Operation::UnifyVariable(_)
            | Operation::UnifyValue(_) => self.size(),
        }
    }
}

/// Law: for every instruction in this non-branching subset, the control
/// advance equals the encoded size. This equality is a fact about the
/// present opcodes, not a definition: both sides are fixed independently,
/// per variant.
pub proof fn lemma_advance_equals_size(op: Operation)
    ensures
        op.spec_advance() == op.spec_size(),
{
}

} // verus!
