use vstd::prelude::*;
use crate::operation::Operation;
use crate::program::{Program, ProgramBuilder, assembly_seq};

verus! {

/// How many instructions of `ops` define register `r`, that is, are a
/// `PutStructure` or `SetVariable` with `r` as destination.
pub open spec fn def_count(ops: Seq<Operation>, r: usize) -> nat
    decreases ops.len(),
{
    if ops.len() == 0 {
        0
    } else {
        def_count(ops.drop_last(), r) + if ops.last().spec_defines(r) {
            1nat
        } else {
            0nat
        }
    }
}

/// Single-static-assignment discipline of an in-progress build: every
/// register the builder has issued so far (`1 <= r < next`) is defined by
/// exactly one instruction, and no other register — in particular not the
/// reserved register 0 — is defined at all.
pub open spec fn ssa_upto(ops: Seq<Operation>, next: usize) -> bool {
    &&& forall|r: usize| 1 <= r < next ==> #[trigger] def_count(ops, r) == 1
    &&& forall|r: usize| (r == 0 || r >= next) ==> #[trigger] def_count(ops, r) == 0
}

/// Single-static-assignment discipline of a finished program: no register
/// has more than one defining instruction, and register 0 has none.
pub open spec fn single_assignment(ops: Seq<Operation>) -> bool {
    &&& forall|r: usize| #[trigger] def_count(ops, r) <= 1
    &&& def_count(ops, 0) == 0
}

/// Appending one instruction adds its definition, if any, to the count of
/// each register and leaves every other count unchanged.
proof fn lemma_def_count_push(ops: Seq<Operation>, op: Operation, r: usize)
    ensures
        def_count(ops.push(op), r) == def_count(ops, r) + if op.spec_defines(r) {
            1nat
        } else {
            0nat
        },
{
    assert(ops.push(op).drop_last() =~= ops);
    assert(ops.push(op).last() == op);
}

/// Appending the unique defining instruction of the next free register
/// extends the single-static-assignment discipline by that register.
proof fn lemma_ssa_push_define(ops: Seq<Operation>, op: Operation, next: usize)
    requires
        ssa_upto(ops, next),
        1 <= next < usize::MAX,
        op.spec_defines(next),
        forall|r: usize| #[trigger] op.spec_defines(r) ==> r == next,
    ensures
        ssa_upto(ops.push(op), (next + 1) as usize),
{
    assert forall|r: usize| 1 <= r < next + 1 implies #[trigger] def_count(ops.push(op), r)
        == 1 by {
        lemma_def_count_push(ops, op, r);
    }
    assert forall|r: usize| r == 0 || r >= next + 1 implies #[trigger] def_count(ops.push(op), r)
        == 0 by {
        lemma_def_count_push(ops, op, r);
    }
}

/// Appending an instruction that defines no register — a `SetValue` use —
/// preserves the single-static-assignment discipline unchanged.
proof fn lemma_ssa_push_use(ops: Seq<Operation>, op: Operation, next: usize)
    requires
        ssa_upto(ops, next),
        forall|r: usize| !(#[trigger] op.spec_defines(r)),
    ensures
        ssa_upto(ops.push(op), next),
{
    assert forall|r: usize| 1 <= r < next implies #[trigger] def_count(ops.push(op), r) == 1 by {
        lemma_def_count_push(ops, op, r);
    }
    assert forall|r: usize| r == 0 || r >= next implies #[trigger] def_count(ops.push(op), r)
        == 0 by {
        lemma_def_count_push(ops, op, r);
    }
}

/// Reference to a query part: names the register a term was staged in,
/// for building enclosing structures and, after execution, for reading
/// the unification result back. A `QueryRef` is only meaningful against
/// the builder/query pair that issued it.
#[derive(Clone, Copy)]
pub struct QueryRef(pub(crate) usize);

impl QueryRef {
    /// The register index this reference names.
    pub closed spec fn idx(self) -> usize {
        self.0
    }

    /// The register index this reference names.
    pub fn id(self) -> (r: usize)
        ensures
            r == self.idx(),
    {
        self.0
    }
}

/// A compiled query: an immutable program together with the register
/// holding the top-level term. Produced once by finalizing a
/// [`QueryBuilder`], never mutated afterwards.
pub struct Query {
    program: Program,
    top_level: usize,
}

impl Query {
    /// The compiled instruction sequence.
    pub closed spec fn ops(&self) -> Seq<Operation> {
        self.program@
    }

    /// The register holding the query's top-level term.
    pub closed spec fn top(&self) -> usize {
        self.top_level
    }

    /// Renders a human-readable disassembly of the compiled program: one
    /// line per instruction, opcode and operands, in emission order.
    pub fn assembly(&self) -> (r: String)
        ensures
            r@ == assembly_seq(self.ops()),
    {
        self.program.assembly()
    }

    /// The compiled program.
    pub fn program(&self) -> (r: &Program)
        ensures
            r@ == self.ops(),
    {
        &self.program
    }

    /// The register holding the query's top-level term.
    pub fn top_register(&self) -> (r: usize)
        ensures
            r == self.top(),
    {
        self.top_level
    }
}

/// Compiles a term tree into a flat construction-instruction sequence,
/// allocating registers monotonically from 1 upward. Register 0 is
/// reserved for the top-level term and never issued. Each register is
/// defined by exactly one `PutStructure`/`SetVariable` instruction; every
/// later reference is a `SetValue` use.
pub struct QueryBuilder {
    program: ProgramBuilder,
    next_register: usize,
}

impl QueryBuilder {
    /// The instructions emitted so far, in order.
    pub closed spec fn ops(&self) -> Seq<Operation> {
        self.program@
    }

    /// The next register the builder will issue.
    pub closed spec fn next_reg(&self) -> usize {
        self.next_register
    }

    /// Well-formedness: at least one register is reserved (register 0),
    /// and the emitted instructions obey the single-static-assignment
    /// discipline for the registers issued so far.
    pub open spec fn wf(&self) -> bool {
        &&& 1 <= self.next_reg()
        &&& ssa_upto(self.ops(), self.next_reg())
    }

    /// A fresh builder: no instructions, next register 1.
    pub fn new() -> (r: Self)
        ensures
            r.ops() == Seq::<Operation>::empty(),
            r.next_reg() == 1,
            r.wf(),
    {
        Self::default()
    }

    /// Allocates the next free register: strictly monotonic, starting at
    /// 1, never reused within one builder session.
    fn next_register(&mut self) -> (r: usize)
        requires
            old(self).next_reg() < usize::MAX,
        ensures
            r == old(self).next_reg(),
            final(self).next_reg() == old(self).next_reg() + 1,
            final(self).ops() == old(self).ops(),
    {
        self.next_register += 1;
        self.next_register - 1
    }

    /// Allocates a fresh register, emits `SetVariable` for it — the first
    /// occurrence of a new, unbound variable — and returns a reference to
    /// it.
    pub fn variable(&mut self) -> (r: QueryRef)
        requires
            old(self).wf(),
            old(self).next_reg() < usize::MAX,
        ensures
            final(self).wf(),
            r.idx() == old(self).next_reg(),
            1 <= r.idx(),
            final(self).next_reg() == old(self).next_reg() + 1,
            final(self).ops() == old(self).ops().push(
                Operation::SetVariable(old(self).next_reg()),
            ),
    {
        let register = self.next_register();
        self.program.set_variable(register);
        proof {
            lemma_ssa_push_define(
                old(self).ops(),
                Operation::SetVariable(register),
                register,
            );
        }
        QueryRef(register)
    }

    /// Emits the instructions for a structure with functor `ident` over
    /// the given subterms: a fresh register is allocated and defined by
    /// `PutStructure(ident, arity, register)` with arity exactly the
    /// number of subterms, followed by one `SetValue` per subterm, in
    /// input order — each a use of the subterm's register, never a second
    /// definition. A zero-arity structure (a constant) emits the single
    /// `PutStructure` and nothing else.
    ///
    /// The subterm references must come from this builder; passing a
    /// reference issued by another builder is unchecked misuse.
    pub fn structure(&mut self, ident: usize, subterms: &Vec<QueryRef>) -> (r: QueryRef)
        requires
            old(self).wf(),
            old(self).next_reg() < usize::MAX,
        ensures
            final(self).wf(),
            r.idx() == old(self).next_reg(),
            1 <= r.idx(),
            final(self).next_reg() == old(self).next_reg() + 1,
            final(self).ops() == old(self).ops().push(
                Operation::PutStructure(ident, subterms@.len() as usize, old(self).next_reg()),
            ) + subterms@.map_values(|q: QueryRef| Operation::SetValue(q.idx())),
    {
        let ghost ops0 = self.ops();
        let ghost base = self.next_reg();
        let register = self.next_register();
        self.program.put_structure(ident, subterms.len(), register);
        let ghost put_op = Operation::PutStructure(ident, subterms@.len() as usize, base);
        proof {
            lemma_ssa_push_define(ops0, put_op, base);
        }
        let mut i: usize = 0;
        while i < subterms.len()
            invariant
                i <= subterms.len(),
                register == base,
                self.next_reg() == base + 1,
                base < usize::MAX,
                ssa_upto(self.ops(), self.next_reg()),
                1 <= self.next_reg(),
                self.ops() == ops0.push(put_op) + subterms@.take(i as int).map_values(
                    |q: QueryRef| Operation::SetValue(q.idx()),
                ),
            decreases subterms.len() - i,
        {
            let q = subterms[i];
            let ghost ops_before = self.ops();
            self.program.set_value(q.0);
            proof {
                lemma_ssa_push_use(ops_before, Operation::SetValue(q.idx()), self.next_reg());
                assert(subterms@.take(i + 1) =~= subterms@.take(i as int).push(
                    subterms@[i as int],
                ));
                assert(subterms@.take(i + 1).map_values(
                    |qq: QueryRef| Operation::SetValue(qq.idx()),
                ) =~= subterms@.take(i as int).map_values(
                    |qq: QueryRef| Operation::SetValue(qq.idx()),
                ).push(Operation::SetValue(subterms@[i as int].idx())));
                assert(self.ops() =~= ops0.push(put_op) + subterms@.take(i + 1).map_values(
                    |qq: QueryRef| Operation::SetValue(qq.idx()),
                ));
            }
            i = i + 1;
        }
        proof {
            assert(subterms@.take(subterms@.len() as int) =~= subterms@);
        }
        QueryRef(register)
    }

    /// Shorthand for a structure with no subterms: a constant (atom).
    /// Emits exactly `PutStructure(ident, 0, register)` and no `SetValue`
    /// instruction.
    pub fn constant(&mut self, ident: usize) -> (r: QueryRef)
        requires
            old(self).wf(),
            old(self).next_reg() < usize::MAX,
        ensures
            final(self).wf(),
            r.idx() == old(self).next_reg(),
            1 <= r.idx(),
            final(self).next_reg() == old(self).next_reg() + 1,
            final(self).ops() == old(self).ops().push(
                Operation::PutStructure(ident, 0, old(self).next_reg()),
            ),
    {
        let subterms: Vec<QueryRef> = Vec::new();
        let r = self.structure(ident, &subterms);
        proof {
            assert(old(self).ops().push(Operation::PutStructure(ident, 0, old(self).next_reg()))
                + subterms@.map_values(|q: QueryRef| Operation::SetValue(q.idx())) =~= old(
                self,
            ).ops().push(Operation::PutStructure(ident, 0, old(self).next_reg())));
        }
        r
    }

    /// Consumes the builder, finalizing the accumulated instructions into
    /// an immutable program, and records `top_level` as the register
    /// holding the query's top-level term. The builder cannot be used
    /// again afterwards.
    pub fn build(self, top_level: QueryRef) -> (q: Query)
        ensures
            q.ops() == self.ops(),
            q.top() == top_level.idx(),
            self.wf() ==> single_assignment(q.ops()),
            self.wf() ==> forall|r: usize| 1 <= r < self.next_reg()
                ==> #[trigger] def_count(q.ops(), r) == 1,
    {
        Query { program: self.program.build(), top_level: top_level.id() }
    }
}

impl Default for QueryBuilder {
    /// A fresh builder: no instructions, next register 1 (register 0 is
    /// reserved for the top-level term).
    fn default() -> (r: Self)
        ensures
            r.ops() == Seq::<Operation>::empty(),
            r.next_reg() == 1,
            r.wf(),
    {
        QueryBuilder { program: ProgramBuilder::default(), next_register: 1 }
    }
}

/// Law: a well-formed builder session obeys single static assignment —
/// each register it issued is the destination of exactly one
/// `PutStructure`/`SetVariable` instruction in the emitted program, no
/// register is defined twice, and the reserved register 0 is never
/// defined.
pub proof fn lemma_single_assignment(b: QueryBuilder)
    requires
        b.wf(),
    ensures
        single_assignment(b.ops()),
        forall|r: usize| 1 <= r < b.next_reg() ==> #[trigger] def_count(b.ops(), r) == 1,
{
    assert forall|r: usize| #[trigger] def_count(b.ops(), r) <= 1 by {
        if 1 <= r < b.next_reg() {
            assert(def_count(b.ops(), r) == 1);
        } else {
            assert(def_count(b.ops(), r) == 0);
        }
    }
}

/// Term-reconstruction capability supplied by the embedder: maps one
/// runtime cell to a caller-chosen term representation, or reports that
/// the cell is unresolved.
pub trait TermBuilder<C> {
    /// The caller-chosen term representation.
    type Term;

    /// Produces the term a bound cell stands for, or `None` when the cell
    /// is unresolved.
    fn build_term(&mut self, cell: &C) -> Option<Self::Term>;
}

/// Read-only snapshot of one execution's register file, used to read
/// terms back out of bound registers. Nothing mutates it after creation.
pub struct QueryResult<C> {
    regs: Vec<C>,
}

impl<C> View for QueryResult<C> {
    type V = Seq<C>;

    closed spec fn view(&self) -> Seq<C> {
        self.regs@
    }
}

impl<C> QueryResult<C> {
    /// Wraps the register file an execution produced.
    pub fn new(regs: Vec<C>) -> (r: Self)
        ensures
            r@ == regs@,
    {
        QueryResult { regs }
    }

    /// The cell in the register a reference names: `Some` exactly when
    /// the index is in range for this result's register file, `None` —
    /// absent, never a fault — otherwise (for instance when the reference
    /// came from an unrelated query).
    pub fn register(&self, qref: QueryRef) -> (r: Option<&C>)
        ensures
            match r {
                Some(cell) => qref.idx() < self@.len() && *cell == self@[qref.idx() as int],
                None => qref.idx() >= self@.len(),
            },
    {
        if qref.0 < self.regs.len() {
            Some(&self.regs[qref.0])
        } else {
            None
        }
    }

    /// Resolves the register named by `qref` and delegates to `builder`,
    /// the externally supplied term-reconstruction capability. Returns
    /// absent — never a fault — when the index is out of range for this
    /// result's register file; otherwise returns whatever the capability
    /// produces for the bound cell (absent again when the cell is itself
    /// unresolved).
    pub fn build_term<B: TermBuilder<C>>(&self, qref: QueryRef, builder: &mut B) -> (r: Option<
        B::Term,
    >)
        ensures
            qref.idx() >= self@.len() ==> r is None,
    {
        match self.register(qref) {
            Some(cell) => builder.build_term(cell),
            None => None,
        }
    }
}

} // verus!

