use machine::operation::Operation;

#[test]
fn encoded_sizes_are_fixed() {
    assert_eq!(Operation::PutStructure(0, 0, 0).size(), 4);
    assert_eq!(Operation::PutStructure(91, 7, 3).size(), 4);
    assert_eq!(Operation::GetStructure(0, 0, 0).size(), 4);
    assert_eq!(Operation::GetStructure(usize::MAX, usize::MAX, usize::MAX).size(), 4);
    assert_eq!(Operation::SetVariable(0).size(), 2);
    assert_eq!(Operation::SetVariable(usize::MAX).size(), 2);
    assert_eq!(Operation::SetValue(5).size(), 2);
    assert_eq!(Operation::UnifyVariable(17).size(), 2);
    assert_eq!(Operation::UnifyValue(1).size(), 2);
}

#[test]
fn advance_equals_size_for_every_variant() {
    let ops = vec![
        Operation::PutStructure(4, 2, 1),
        Operation::SetVariable(2),
        Operation::SetValue(3),
        Operation::GetStructure(9, 0, 4),
        Operation::UnifyVariable(5),
        Operation::UnifyValue(6),
    ];
    for op in ops {
        assert_eq!(op.advance(), op.size());
    }
}

#[test]
fn advance_values() {
    assert_eq!(Operation::PutStructure(1, 2, 3).advance(), 4);
    assert_eq!(Operation::SetVariable(1).advance(), 2);
    assert_eq!(Operation::SetValue(1).advance(), 2);
    assert_eq!(Operation::GetStructure(1, 2, 3).advance(), 4);
    assert_eq!(Operation::UnifyVariable(1).advance(), 2);
    assert_eq!(Operation::UnifyValue(1).advance(), 2);
}
