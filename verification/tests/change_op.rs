use stargate::change_set::{ChangeOp, ChangeSetError};
use stargate::value::Value;

fn merged(first: &ChangeOp, second: &ChangeOp) -> ChangeOp {
    ChangeOp::merge(first, second).expect("the two changes combine")
}

#[test]
fn no_change_is_the_identity_on_both_sides() {
    let ops = vec![
        ChangeOp::NoChange,
        ChangeOp::Plus(7),
        ChangeOp::Minus(9),
        ChangeOp::Update(Value::new(vec![1, 2, 3])),
        ChangeOp::Deletion,
    ];
    for op in ops.iter() {
        assert_eq!(format!("{:?}", merged(&ChangeOp::NoChange, op)), format!("{:?}", op));
        assert_eq!(format!("{:?}", merged(op, &ChangeOp::NoChange)), format!("{:?}", op));
    }
}

#[test]
fn plus_and_minus_leave_their_difference() {
    assert!(merged(&ChangeOp::Plus(5), &ChangeOp::Minus(5)).is_none());
    assert_eq!(merged(&ChangeOp::Plus(8), &ChangeOp::Minus(5)).as_plus(), Some(3));
    assert_eq!(merged(&ChangeOp::Plus(5), &ChangeOp::Minus(8)).as_minus(), Some(3));
    assert!(merged(&ChangeOp::Minus(5), &ChangeOp::Plus(5)).is_none());
    assert_eq!(merged(&ChangeOp::Minus(8), &ChangeOp::Plus(5)).as_minus(), Some(3));
    assert_eq!(merged(&ChangeOp::Minus(5), &ChangeOp::Plus(8)).as_plus(), Some(3));
    assert_eq!(merged(&ChangeOp::Plus(5), &ChangeOp::Plus(8)).as_plus(), Some(13));
    assert_eq!(merged(&ChangeOp::Minus(5), &ChangeOp::Minus(8)).as_minus(), Some(13));
}

#[test]
fn counted_and_stored_changes_do_not_combine() {
    let update = ChangeOp::Update(Value::new(vec![4]));
    assert_eq!(
        ChangeOp::merge(&ChangeOp::Plus(1), &update).err(),
        Some(ChangeSetError::IncompatibleOps)
    );
    assert_eq!(
        ChangeOp::merge(&ChangeOp::Minus(1), &ChangeOp::Deletion).err(),
        Some(ChangeSetError::IncompatibleOps)
    );
    assert_eq!(
        ChangeOp::merge(&update, &ChangeOp::Minus(1)).err(),
        Some(ChangeSetError::IncompatibleOps)
    );
    assert_eq!(
        ChangeOp::merge(&ChangeOp::Deletion, &ChangeOp::Plus(1)).err(),
        Some(ChangeSetError::IncompatibleOps)
    );
}
