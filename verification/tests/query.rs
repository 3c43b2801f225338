use machine::operation::Operation;
use machine::query::QueryBuilder;

#[test]
fn registers_are_issued_monotonically_from_one() {
    let mut builder = QueryBuilder::new();
    let a = builder.variable();
    let b = builder.constant(3);
    let c = builder.variable();
    let d = builder.structure(8, &vec![a, c]);
    let e = builder.variable();
    assert_eq!(a.id(), 1);
    assert_eq!(b.id(), 2);
    assert_eq!(c.id(), 3);
    assert_eq!(d.id(), 4);
    assert_eq!(e.id(), 5);
}

#[test]
fn structure_emits_put_structure_then_one_set_value_per_subterm() {
    let mut builder = QueryBuilder::new();
    let a = builder.variable();
    let b = builder.variable();
    let c = builder.variable();
    let s = builder.structure(42, &vec![a, b, c]);
    let q = builder.build(s);
    assert_eq!(
        *q.program().operations(),
        vec![
            Operation::SetVariable(1),
            Operation::SetVariable(2),
            Operation::SetVariable(3),
            Operation::PutStructure(42, 3, 4),
            Operation::SetValue(1),
            Operation::SetValue(2),
            Operation::SetValue(3),
        ]
    );
    assert_eq!(q.top_register(), 4);
}

#[test]
fn constant_emits_a_single_zero_arity_put_structure() {
    let mut builder = QueryBuilder::new();
    let c = builder.constant(6);
    let q = builder.build(c);
    assert_eq!(*q.program().operations(), vec![Operation::PutStructure(6, 0, 1)]);
    assert_eq!(q.program().len(), 1);
}

#[test]
fn variable_then_unary_structure_end_to_end() {
    let mut builder = QueryBuilder::new();
    let v = builder.variable();
    assert_eq!(v.id(), 1);
    let s = builder.structure(7, &vec![v]);
    assert_eq!(s.id(), 2);
    let q = builder.build(s);
    assert_eq!(
        *q.program().operations(),
        vec![
            Operation::SetVariable(1),
            Operation::PutStructure(7, 1, 2),
            Operation::SetValue(1),
        ]
    );
    assert_eq!(q.top_register(), 2);
}

#[test]
fn shared_subterm_is_used_not_redefined() {
    // f(X, g(X)): X appears twice, but only one SetVariable defines it.
    let mut builder = QueryBuilder::new();
    let x = builder.variable();
    let g = builder.structure(20, &vec![x]);
    let f = builder.structure(10, &vec![x, g]);
    let q = builder.build(f);
    let ops = q.program().operations();
    for r in 0..5usize {
        let defs = ops
            .iter()
            .filter(|op| match op {
                Operation::PutStructure(_, _, dest) => *dest == r,
                Operation::SetVariable(dest) => *dest == r,
                _ => false,
            })
            .count();
        let expected = if (1..=3).contains(&r) { 1 } else { 0 };
        assert_eq!(defs, expected, "register {} defined {} times", r, defs);
    }
    assert_eq!(
        *ops,
        vec![
            Operation::SetVariable(1),
            Operation::PutStructure(20, 1, 2),
            Operation::SetValue(1),
            Operation::PutStructure(10, 2, 3),
            Operation::SetValue(1),
            Operation::SetValue(2),
        ]
    );
}

#[test]
fn constant_query_disassembly() {
    let mut builder = QueryBuilder::new();
    let c = builder.constant(7);
    let q = builder.build(c);
    assert_eq!(q.program().len(), 1);
    assert_eq!(q.assembly(), "PutStructure 7/0, X1\n");
}

#[test]
fn disassembly_lists_every_instruction_with_its_operands() {
    let mut builder = QueryBuilder::new();
    let v = builder.variable();
    let s = builder.structure(1234, &vec![v]);
    let q = builder.build(s);
    assert_eq!(
        q.assembly(),
        "SetVariable X1\nPutStructure 1234/1, X2\nSetValue X1\n"
    );
}

#[test]
fn disassembly_renders_multi_digit_registers() {
    let mut builder = QueryBuilder::new();
    let mut refs = Vec::new();
    for _ in 0..10 {
        refs.push(builder.variable());
    }
    let s = builder.structure(0, &refs);
    assert_eq!(s.id(), 11);
    let q = builder.build(s);
    let text = q.assembly();
    assert!(text.contains("SetVariable X10\n"));
    assert!(text.contains("PutStructure 0/10, X11\n"));
    assert!(text.ends_with("SetValue X10\n"));
}
