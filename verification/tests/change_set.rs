use stargate::access_path::{AccessPath, Accesses, AccountAddress};
use stargate::change_set::{ChangeOp, ChangeSet, ChangeSetError, ChangeSetMut, FieldChanges};
use stargate::value::Value;

fn field(name: &str) -> Accesses {
    Accesses::new(name.as_bytes().to_vec())
}

fn resource(account: u8, tag: &str) -> AccessPath {
    AccessPath::new(AccountAddress::new([account; 32]), tag.as_bytes().to_vec())
}

fn update(bytes: &[u8]) -> ChangeOp {
    ChangeOp::Update(Value::new(bytes.to_vec()))
}

fn show(op: &ChangeOp) -> String {
    format!("{:?}", op)
}

fn fields(entries: Vec<(&str, ChangeOp)>) -> FieldChanges {
    FieldChanges::new(entries.into_iter().map(|(name, op)| (field(name), op)).collect())
}

fn listed(changes: &FieldChanges) -> Vec<(Accesses, String)> {
    changes.iter().map(|(accesses, op)| (accesses.clone(), show(op))).collect()
}

fn expected(entries: Vec<(&str, ChangeOp)>) -> Vec<(Accesses, String)> {
    entries.into_iter().map(|(name, op)| (field(name), show(&op))).collect()
}

#[test]
fn stored_changes_keep_the_last_write() {
    let merged = |a: &ChangeOp, b: &ChangeOp| show(&ChangeOp::merge(a, b).unwrap());
    assert_eq!(merged(&update(&[1]), &update(&[2])), show(&update(&[2])));
    assert_eq!(merged(&update(&[1]), &ChangeOp::Deletion), show(&ChangeOp::Deletion));
    assert_eq!(merged(&ChangeOp::Deletion, &ChangeOp::Deletion), show(&ChangeOp::Deletion));
    assert_eq!(merged(&ChangeOp::Deletion, &update(&[3])), show(&update(&[3])));
    assert_eq!(merged(&update(&[1]), &ChangeOp::NoChange), show(&update(&[1])));
    assert_eq!(merged(&ChangeOp::Deletion, &ChangeOp::NoChange), show(&ChangeOp::Deletion));
}

#[test]
fn the_kind_of_a_change_can_be_asked() {
    assert!(ChangeOp::NoChange.is_none());
    assert!(!ChangeOp::Plus(0).is_none());
    assert!(ChangeOp::Deletion.is_deletion());
    assert!(!update(&[]).is_deletion());
    assert_eq!(ChangeOp::Plus(4).as_plus(), Some(4));
    assert_eq!(ChangeOp::Plus(4).as_minus(), None);
    assert_eq!(ChangeOp::Minus(4).as_minus(), Some(4));
    assert_eq!(ChangeOp::Minus(4).as_plus(), None);
    assert_eq!(ChangeOp::Deletion.as_plus(), None);
}

#[test]
fn merging_in_place_gives_back_the_old_change() {
    let mut op = ChangeOp::Plus(10);
    let old = op.merge_with(&ChangeOp::Minus(4)).unwrap();
    assert_eq!(show(&old), show(&ChangeOp::Plus(10)));
    assert_eq!(show(&op), show(&ChangeOp::Plus(6)));
    assert_eq!(op.merge_with(&ChangeOp::Deletion).err(), Some(ChangeSetError::IncompatibleOps));
    assert_eq!(show(&op), show(&ChangeOp::Plus(6)));
}

#[test]
fn field_changes_merge_by_selector() {
    let first = fields(vec![("balance", ChangeOp::Plus(10)), ("name", update(b"a"))]);
    let second = fields(vec![
        ("name", ChangeOp::Deletion),
        ("sequence", ChangeOp::Plus(1)),
        ("balance", ChangeOp::Minus(3)),
        ("sequence", ChangeOp::Plus(1)),
    ]);
    let merged = FieldChanges::merge(&first, &second).unwrap();
    assert_eq!(
        listed(&merged),
        expected(vec![
            ("balance", ChangeOp::Plus(7)),
            ("name", ChangeOp::Deletion),
            ("sequence", ChangeOp::Plus(2)),
        ])
    );
    assert_eq!(merged.len(), 3);
    assert!(!merged.is_empty());
    assert!(merged.has_unique_accesses());
    // the two sides are as they were
    assert_eq!(first.len(), 2);
    assert_eq!(second.len(), 4);
    assert!(!second.has_unique_accesses());
}

#[test]
fn a_merge_of_field_changes_fails_as_a_whole() {
    let mut first = fields(vec![("balance", ChangeOp::Plus(10)), ("name", update(b"a"))]);
    let second = fields(vec![("balance", ChangeOp::Plus(1)), ("name", ChangeOp::Minus(1))]);
    assert_eq!(
        FieldChanges::merge(&first, &second).err(),
        Some(ChangeSetError::IncompatibleOps)
    );
    assert_eq!(first.merge_with(&second).err(), Some(ChangeSetError::IncompatibleOps));
    assert_eq!(
        listed(&first),
        expected(vec![("balance", ChangeOp::Plus(10)), ("name", update(b"a"))])
    );
}

#[test]
fn merging_field_changes_in_place_gives_back_the_old_ones() {
    let mut first = fields(vec![("balance", ChangeOp::Plus(10))]);
    let second = fields(vec![("balance", ChangeOp::Minus(10)), ("name", update(b"b"))]);
    let old = first.merge_with(&second).unwrap();
    assert_eq!(listed(&old), expected(vec![("balance", ChangeOp::Plus(10))]));
    assert_eq!(
        listed(&first),
        expected(vec![("balance", ChangeOp::NoChange), ("name", update(b"b"))])
    );
}

#[test]
fn filter_none_drops_the_unchanged_fields_and_nothing_else() {
    let mut changes = fields(vec![
        ("a", ChangeOp::NoChange),
        ("b", ChangeOp::Plus(0)),
        ("c", ChangeOp::NoChange),
        ("d", ChangeOp::Deletion),
        ("e", update(b"")),
        ("f", ChangeOp::NoChange),
    ]);
    changes.filter_none();
    assert_eq!(
        listed(&changes),
        expected(vec![("b", ChangeOp::Plus(0)), ("d", ChangeOp::Deletion), ("e", update(b""))])
    );
    let mut empty = FieldChanges::empty();
    empty.filter_none();
    assert!(empty.is_empty());
}

#[test]
fn field_changes_are_a_list() {
    let mut changes = FieldChanges::empty();
    assert_eq!(changes.len(), 0);
    changes.push((field("a"), ChangeOp::Plus(1)));
    let mut more = fields(vec![("b", ChangeOp::Minus(2)), ("a", ChangeOp::Plus(5))]);
    changes.append(&mut more);
    assert!(more.is_empty());
    assert_eq!(changes.len(), 3);
    assert_eq!(changes[1].0, field("b"));
    assert_eq!(show(&changes[1].1), show(&ChangeOp::Minus(2)));
    // the first entry for a selector is the one found
    assert_eq!(changes.get_change(&field("a")).map(show), Some(show(&ChangeOp::Plus(1))));
    assert!(changes.get_change(&field("z")).is_none());
    *changes.get_change_mut(&field("a")).unwrap() = ChangeOp::Deletion;
    assert!(changes.get_change_mut(&field("z")).is_none());
    assert_eq!(show(&changes[0].1), show(&ChangeOp::Deletion));
    assert_eq!(show(&changes[2].1), show(&ChangeOp::Plus(5)));
    let borrowed: Vec<String> = (&changes).into_iter().map(|(_, op)| show(op)).collect();
    let owned: Vec<String> = changes.into_iter().map(|(_, op)| show(&op)).collect();
    assert_eq!(borrowed, owned);
    assert_eq!(owned.len(), 3);
}

#[test]
fn associativity_holds_within_a_family() {
    let merge = |a: &FieldChanges, b: &FieldChanges| FieldChanges::merge(a, b).unwrap();
    let a = fields(vec![("n", ChangeOp::Plus(5)), ("s", update(b"1"))]);
    let b = fields(vec![("s", ChangeOp::Deletion), ("n", ChangeOp::Minus(5)), ("m", ChangeOp::Plus(1))]);
    let c = fields(vec![("m", ChangeOp::Minus(4)), ("n", ChangeOp::Minus(2)), ("s", update(b"3"))]);
    let left = merge(&merge(&a, &b), &c);
    let right = merge(&a, &merge(&b, &c));
    assert_eq!(listed(&left), listed(&right));
    assert_eq!(
        listed(&left),
        expected(vec![
            ("n", ChangeOp::Minus(2)),
            ("s", update(b"3")),
            ("m", ChangeOp::Minus(3)),
        ])
    );
}

#[test]
fn a_rise_by_zero_breaks_associativity() {
    let merge = |a: &ChangeOp, b: &ChangeOp| ChangeOp::merge(a, b).unwrap();
    let (a, b, c) = (ChangeOp::Plus(0), ChangeOp::Plus(0), ChangeOp::Minus(0));
    assert_eq!(show(&merge(&merge(&a, &b), &c)), show(&ChangeOp::NoChange));
    assert_eq!(show(&merge(&a, &merge(&b, &c))), show(&ChangeOp::Plus(0)));
}

fn change_set(entries: Vec<(AccessPath, FieldChanges)>) -> ChangeSetMut {
    ChangeSetMut::new(entries)
}

#[test]
fn change_sets_merge_by_resource() {
    let first = change_set(vec![
        (resource(1, "account"), fields(vec![("balance", ChangeOp::Minus(10))])),
        (resource(1, "channel"), fields(vec![("balance", ChangeOp::Plus(10))])),
    ]);
    let second = change_set(vec![
        (resource(2, "account"), fields(vec![("balance", ChangeOp::Plus(4))])),
        (
            resource(1, "channel"),
            fields(vec![("balance", ChangeOp::Minus(4)), ("owner", update(b"x"))]),
        ),
    ]);
    let merged = ChangeSetMut::merge(&first, &second).unwrap();
    assert_eq!(merged.len(), 3);
    assert_eq!(merged[0].0, resource(1, "account"));
    assert_eq!(merged[1].0, resource(1, "channel"));
    assert_eq!(merged[2].0, resource(2, "account"));
    assert_eq!(
        listed(merged.get_changes(&resource(1, "channel")).unwrap()),
        expected(vec![("balance", ChangeOp::Plus(6)), ("owner", update(b"x"))])
    );
    // a resource of one side only is in the result as it is there
    assert_eq!(
        listed(merged.get_changes(&resource(1, "account")).unwrap()),
        listed(first.get_changes(&resource(1, "account")).unwrap())
    );
    assert_eq!(
        listed(merged.get_changes(&resource(2, "account")).unwrap()),
        listed(second.get_changes(&resource(2, "account")).unwrap())
    );
    assert!(merged.get_changes(&resource(3, "account")).is_none());
}

#[test]
fn merging_change_sets_in_place_gives_back_the_old_one() {
    let mut first = change_set(vec![(resource(1, "a"), fields(vec![("f", ChangeOp::Plus(1))]))]);
    let second = change_set(vec![(resource(1, "a"), fields(vec![("f", ChangeOp::Plus(2))]))]);
    let old = first.merge_with(&second).unwrap();
    assert_eq!(listed(&old[0].1), expected(vec![("f", ChangeOp::Plus(1))]));
    assert_eq!(listed(&first[0].1), expected(vec![("f", ChangeOp::Plus(3))]));

    let clash = change_set(vec![(resource(1, "a"), fields(vec![("f", ChangeOp::Deletion)]))]);
    assert_eq!(first.merge_with(&clash).err(), Some(ChangeSetError::IncompatibleOps));
    assert_eq!(listed(&first[0].1), expected(vec![("f", ChangeOp::Plus(3))]));
    assert_eq!(
        ChangeSetMut::merge(&first, &clash).err(),
        Some(ChangeSetError::IncompatibleOps)
    );
}

#[test]
fn a_change_set_under_construction_is_a_list() {
    let mut set = ChangeSetMut::default();
    assert!(set.is_empty());
    set.push((resource(1, "a"), FieldChanges::empty()));
    set.push((resource(1, "b"), fields(vec![("f", ChangeOp::Plus(2))])));
    assert_eq!(set.len(), 2);
    assert!(set.has_unique_access_paths());
    set.get_changes_mut(&resource(1, "a")).unwrap().push((field("g"), ChangeOp::Deletion));
    assert!(set.get_changes_mut(&resource(9, "a")).is_none());
    assert_eq!(listed(&set[0].1), expected(vec![("g", ChangeOp::Deletion)]));
    assert_eq!(set.clone().len(), 2);
}

#[test]
fn freezing_checks_the_structure() {
    let sound = change_set(vec![
        (resource(1, "a"), fields(vec![("f", ChangeOp::Plus(1)), ("g", ChangeOp::Deletion)])),
        (resource(2, "a"), fields(vec![("f", update(b"v"))])),
    ]);
    let frozen = sound.clone().freeze().unwrap();
    assert_eq!(frozen.len(), 2);
    assert!(!frozen.is_empty());
    let paths: Vec<AccessPath> = frozen.iter().map(|(path, _)| path.clone()).collect();
    assert_eq!(paths, vec![resource(1, "a"), resource(2, "a")]);
    assert_eq!((&frozen).into_iter().count(), 2);
    assert_eq!(frozen.clone().into_iter().count(), 2);
    assert_eq!(frozen.into_mut().len(), 2);

    let twice_the_resource = change_set(vec![
        (resource(1, "a"), fields(vec![("f", ChangeOp::Plus(1)), ("f", ChangeOp::Plus(1))])),
        (resource(1, "a"), FieldChanges::empty()),
    ]);
    assert_eq!(
        twice_the_resource.freeze().err(),
        Some(ChangeSetError::DuplicateAccessPath)
    );

    let twice_the_field = change_set(vec![
        (resource(1, "a"), fields(vec![("f", update(b"v"))])),
        (resource(2, "a"), fields(vec![("f", update(b"v")), ("f", ChangeOp::Deletion)])),
    ]);
    assert_eq!(twice_the_field.freeze().err(), Some(ChangeSetError::DuplicateAccesses));

    assert!(ChangeSetMut::default().freeze().unwrap().is_empty());
}

#[test]
fn frozen_change_sets_merge_to_a_frozen_one() {
    let first: ChangeSet = change_set(vec![
        (resource(1, "a"), fields(vec![("f", ChangeOp::Plus(1))])),
        (resource(1, "b"), fields(vec![("f", ChangeOp::Plus(2))])),
    ])
    .freeze()
    .unwrap();
    let second: ChangeSet = change_set(vec![
        (resource(1, "c"), fields(vec![("f", ChangeOp::Plus(4))])),
        (resource(1, "a"), fields(vec![("f", ChangeOp::Plus(8)), ("g", ChangeOp::Deletion)])),
    ])
    .freeze()
    .unwrap();
    let merged = ChangeSet::merge(&first, &second).unwrap();
    let found: Vec<(AccessPath, Vec<(Accesses, String)>)> =
        merged.iter().map(|(path, changes)| (path.clone(), listed(changes))).collect();
    assert_eq!(
        found,
        vec![
            (
                resource(1, "a"),
                expected(vec![("f", ChangeOp::Plus(9)), ("g", ChangeOp::Deletion)])
            ),
            (resource(1, "b"), expected(vec![("f", ChangeOp::Plus(2))])),
            (resource(1, "c"), expected(vec![("f", ChangeOp::Plus(4))])),
        ]
    );

    let clash: ChangeSet =
        change_set(vec![(resource(1, "b"), fields(vec![("f", update(b"v"))]))]).freeze().unwrap();
    assert_eq!(
        ChangeSet::merge(&merged, &clash).err(),
        Some(ChangeSetError::IncompatibleOps)
    );
}

#[test]
fn a_merge_that_passes_sixty_four_bits_is_told_beforehand() {
    assert!(ChangeOp::merge_fits(&ChangeOp::Plus(u64::MAX), &ChangeOp::Minus(u64::MAX)));
    assert!(ChangeOp::merge_fits(&ChangeOp::Plus(u64::MAX - 1), &ChangeOp::Plus(1)));
    assert!(!ChangeOp::merge_fits(&ChangeOp::Plus(u64::MAX), &ChangeOp::Plus(1)));
    assert!(!ChangeOp::merge_fits(&ChangeOp::Minus(1), &ChangeOp::Minus(u64::MAX)));
    assert!(ChangeOp::merge_fits(&ChangeOp::Plus(u64::MAX), &ChangeOp::Deletion));

    let first = fields(vec![("n", ChangeOp::Plus(u64::MAX))]);
    let down_then_up = fields(vec![("n", ChangeOp::Minus(5)), ("n", ChangeOp::Plus(5))]);
    let up_then_down = fields(vec![("n", ChangeOp::Plus(5)), ("n", ChangeOp::Minus(5))]);
    assert!(FieldChanges::merge_fits(&first, &down_then_up));
    assert_eq!(
        listed(&FieldChanges::merge(&first, &down_then_up).unwrap()),
        expected(vec![("n", ChangeOp::Plus(u64::MAX))])
    );
    assert!(!FieldChanges::merge_fits(&first, &up_then_down));
    // what comes after a failure is not merged, and so cannot pass the limit
    let fails_first = fields(vec![("n", ChangeOp::Deletion), ("n", ChangeOp::Plus(5))]);
    assert!(FieldChanges::merge_fits(&first, &fails_first));
    assert!(FieldChanges::merge(&first, &fails_first).is_err());

    let set = |changes: FieldChanges| change_set(vec![(resource(1, "a"), changes)]);
    assert!(ChangeSetMut::merge_fits(&set(first.clone()), &set(down_then_up.clone())));
    assert!(!ChangeSetMut::merge_fits(&set(first.clone()), &set(up_then_down)));
    let one_more = fields(vec![("n", ChangeOp::Plus(1))]);
    assert!(!ChangeSet::merge_fits(
        &set(first.clone()).freeze().unwrap(),
        &set(one_more).freeze().unwrap()
    ));
    assert!(ChangeSet::merge_fits(
        &set(first).freeze().unwrap(),
        &change_set(vec![(resource(2, "a"), fields(vec![("n", ChangeOp::Plus(1))]))])
            .freeze()
            .unwrap()
    ));
}
