//! Laws of the merge of state deltas.

use vstd::prelude::*;
use crate::access_path::AccessModel;
use crate::change_set::{
    changes_field, fields_merger, is_counted, is_stored, merge_change_sets, merge_fields,
    merge_op, op_merger, without_unchanged, ChangeSetError, ChangeSetModel, FieldsModel, OpModel,
};
use crate::keyed::{
    first_index, has_key, lemma_first_index, lemma_has_key_first, lemma_merge_all_failure,
    lemma_merge_all_keys, lemma_merge_one_commutes, lemma_merge_one_keys, merge_all, merge_one,
    unique_keys,
};

verus! {

/// The change that leaves a field as it is changes nothing in a merge, on
/// either side.
pub proof fn lemma_merge_identity(x: OpModel)
    ensures
        merge_op(OpModel::NoChange, x) == Ok::<OpModel, ChangeSetError>(x),
        merge_op(x, OpModel::NoChange) == Ok::<OpModel, ChangeSetError>(x),
{
}

/// A rise followed by a fall is the difference of the two: nothing where
/// they are equal, else a rise or a fall by what is left.
pub proof fn lemma_merge_plus_minus(a: u64, b: u64)
    ensures
        merge_op(OpModel::Plus(a as nat), OpModel::Minus(a as nat)) == Ok::<
            OpModel,
            ChangeSetError,
        >(OpModel::NoChange),
        a > b ==> merge_op(OpModel::Plus(a as nat), OpModel::Minus(b as nat)) == Ok::<
            OpModel,
            ChangeSetError,
        >(OpModel::Plus((a - b) as nat)),
        a < b ==> merge_op(OpModel::Plus(a as nat), OpModel::Minus(b as nat)) == Ok::<
            OpModel,
            ChangeSetError,
        >(OpModel::Minus((b - a) as nat)),
{
}

/// A merge fails where a rise or a fall meets an overwrite or a deletion,
/// in either order, and nowhere else.
pub proof fn lemma_merge_cross_family(first: OpModel, second: OpModel)
    ensures
        merge_op(first, second) is Err <==> {
            ||| (first is Plus || first is Minus) && (second is Update || second is Deletion)
            ||| (first is Update || first is Deletion) && (second is Plus || second is Minus)
        },
        merge_op(first, second) is Err ==> merge_op(first, second) == Err::<
            OpModel,
            ChangeSetError,
        >(ChangeSetError::IncompatibleOps),
{
}

/// By how much a counted change moves its field.
pub open spec fn delta(op: OpModel) -> int {
    match op {
        OpModel::Plus(a) => a as int,
        OpModel::Minus(a) => -(a as int),
        _ => 0,
    }
}

/// The change is not a rise or a fall by zero.
pub open spec fn is_settled(op: OpModel) -> bool {
    match op {
        OpModel::Plus(a) => a > 0,
        OpModel::Minus(a) => a > 0,
        _ => true,
    }
}

/// All three changes count, or all three store.
pub open spec fn same_family(a: OpModel, b: OpModel, c: OpModel) -> bool {
    ||| is_counted(a) && is_counted(b) && is_counted(c)
    ||| is_stored(a) && is_stored(b) && is_stored(c)
}

/// Counted changes merge to a change that moves the field by the sum of
/// what they move it by.
pub proof fn lemma_merge_adds_deltas(a: OpModel, b: OpModel)
    requires
        is_counted(a),
        is_counted(b),
    ensures
        merge_op(a, b) is Ok,
        is_counted(merge_op(a, b)->Ok_0),
        delta(merge_op(a, b)->Ok_0) == delta(a) + delta(b),
        is_settled(a) && is_settled(b) ==> is_settled(merge_op(a, b)->Ok_0),
{
}

/// Stored changes merge to the later of the two that changes the field.
pub proof fn lemma_merge_last_write_wins(a: OpModel, b: OpModel)
    requires
        is_stored(a),
        is_stored(b),
    ensures
        merge_op(a, b) == Ok::<OpModel, ChangeSetError>(
            if b is NoChange {
                a
            } else {
                b
            },
        ),
{
}

/// The merge of changes of one family is associative, where none of them
/// is a rise or a fall by zero.
pub proof fn lemma_merge_op_associative(a: OpModel, b: OpModel, c: OpModel)
    requires
        same_family(a, b, c),
        is_settled(a),
        is_settled(b),
        is_settled(c),
    ensures
        merge_op(a, b) is Ok,
        merge_op(b, c) is Ok,
        merge_op(merge_op(a, b)->Ok_0, c) is Ok,
        merge_op(merge_op(a, b)->Ok_0, c) == merge_op(a, merge_op(b, c)->Ok_0),
{
}

/// Merging one entry into the changes to the same single field merges the
/// two changes.
pub proof fn lemma_merge_single_field(selector: Seq<AccessModel>, a: OpModel, b: OpModel)
    ensures
        merge_fields(seq![(selector, a)], seq![(selector, b)]) == match merge_op(a, b) {
            Ok(merged) => Ok::<FieldsModel, ChangeSetError>(seq![(selector, merged)]),
            Err(e) => Err::<FieldsModel, ChangeSetError>(e),
        },
{
    let first = seq![(selector, a)];
    let second = seq![(selector, b)];
    assert(second.drop_last() =~= Seq::<(Seq<AccessModel>, OpModel)>::empty());
    assert(merge_all(first, second.drop_last(), op_merger()) == Ok::<
        FieldsModel,
        ChangeSetError,
    >(first));
    assert(first[0].0 == selector);
    lemma_first_index(first, selector, 0);
    assert(has_key(first, selector));
    assert(merge_fields(first, second) == merge_one(first, selector, b, op_merger()));
    if merge_op(a, b) is Ok {
        assert(first.update(0, (selector, merge_op(a, b)->Ok_0)) =~= seq![
            (selector, merge_op(a, b)->Ok_0),
        ]);
    }
}

/// The merge of the changes to one field is associative, as the merge of
/// the changes themselves is: for changes of one family, none of them a rise
/// or a fall by zero.
pub proof fn lemma_merge_fields_associative(
    selector: Seq<AccessModel>,
    a: OpModel,
    b: OpModel,
    c: OpModel,
)
    requires
        same_family(a, b, c),
        is_settled(a),
        is_settled(b),
        is_settled(c),
    ensures
        ({
            let fa = seq![(selector, a)];
            let fb = seq![(selector, b)];
            let fc = seq![(selector, c)];
            &&& merge_fields(fa, fb) is Ok
            &&& merge_fields(fb, fc) is Ok
            &&& merge_fields(merge_fields(fa, fb)->Ok_0, fc) is Ok
            &&& merge_fields(merge_fields(fa, fb)->Ok_0, fc) == merge_fields(
                fa,
                merge_fields(fb, fc)->Ok_0,
            )
        }),
{
    lemma_merge_op_associative(a, b, c);
    lemma_merge_single_field(selector, a, b);
    lemma_merge_single_field(selector, b, c);
    lemma_merge_single_field(selector, merge_op(a, b)->Ok_0, c);
    lemma_merge_single_field(selector, a, merge_op(b, c)->Ok_0);
}

/// Dropping the unchanged fields keeps every entry that changes its field,
/// and nothing else.
pub proof fn lemma_without_unchanged(s: FieldsModel)
    ensures
        forall|i: int|
            0 <= i < without_unchanged(s).len() ==> !((#[trigger] without_unchanged(s)[i]).1
                is NoChange) && s.contains(without_unchanged(s)[i]),
        forall|i: int|
            0 <= i < s.len() && !((#[trigger] s[i]).1 is NoChange) ==> without_unchanged(
                s,
            ).contains(s[i]),
        without_unchanged(s).len() <= s.len(),
{
    let kept = without_unchanged(s);
    assert forall|i: int| 0 <= i < kept.len() implies !((#[trigger] kept[i]).1 is NoChange)
        && s.contains(kept[i]) by {
        s.lemma_filter_pred(changes_field(), i);
        assert(kept.contains(kept[i]));
        s.lemma_filter_contains_rev(changes_field(), kept[i]);
    }
    assert forall|i: int| 0 <= i < s.len() && !((#[trigger] s[i]).1 is NoChange) implies kept.contains(
        s[i],
    ) by {
        s.lemma_filter_contains(changes_field(), i);
    }
    s.lemma_filter_len(changes_field());
}


/// The change of the entry is of the family that `counted` gives its
/// selector, and is not a rise or a fall by zero.
pub open spec fn entry_in(
    entry: (Seq<AccessModel>, OpModel),
    counted: Set<Seq<AccessModel>>,
) -> bool {
    &&& is_settled(entry.1)
    &&& if counted.contains(entry.0) {
        is_counted(entry.1)
    } else {
        is_stored(entry.1)
    }
}

/// Every change in `s` is of the family of its selector: it counts where
/// the selector is in `counted`, and stores where it is not.
pub open spec fn fields_in(s: FieldsModel, counted: Set<Seq<AccessModel>>) -> bool {
    forall|i: int| 0 <= i < s.len() ==> entry_in(#[trigger] s[i], counted)
}

/// Two changes to one field, of its family, merge to a change of that
/// family.
pub proof fn lemma_merge_op_in_family(
    k: Seq<AccessModel>,
    x: OpModel,
    y: OpModel,
    counted: Set<Seq<AccessModel>>,
)
    requires
        entry_in((k, x), counted),
        entry_in((k, y), counted),
    ensures
        merge_op(x, y) is Ok,
        entry_in((k, merge_op(x, y)->Ok_0), counted),
{
}

/// Changes that keep to the family of their field merge without failure,
/// to changes that keep to it.
pub proof fn lemma_merge_stays_in_family(
    a: FieldsModel,
    b: FieldsModel,
    counted: Set<Seq<AccessModel>>,
)
    requires
        fields_in(a, counted),
        fields_in(b, counted),
    ensures
        merge_fields(a, b) is Ok,
        fields_in(merge_fields(a, b)->Ok_0, counted),
    decreases b.len(),
{
    if b.len() > 0 {
        let rest = b.drop_last();
        let k = b.last().0;
        let v = b.last().1;
        assert forall|i: int| 0 <= i < rest.len() implies entry_in(
            #[trigger] rest[i],
            counted,
        ) by {
            assert(entry_in(b[i], counted));
        }
        lemma_merge_stays_in_family(a, rest, counted);
        let acc = merge_fields(a, rest)->Ok_0;
        assert(entry_in(b[b.len() - 1], counted));
        if has_key(acc, k) {
            lemma_has_key_first(acc, k);
            let i = first_index(acc, k);
            assert(entry_in(acc[i], counted));
            lemma_merge_op_in_family(k, acc[i].1, v, counted);
            let r = acc.update(i, (k, merge_op(acc[i].1, v)->Ok_0));
            assert forall|j: int| 0 <= j < r.len() implies entry_in(#[trigger] r[j], counted) by {
                if j != i {
                    assert(entry_in(acc[j], counted));
                }
            }
        } else {
            let r = acc.push((k, v));
            assert forall|j: int| 0 <= j < r.len() implies entry_in(#[trigger] r[j], counted) by {
                if j < acc.len() {
                    assert(entry_in(acc[j], counted));
                }
            }
        }
    }
}

/// Merging a change into the entry of `d` for its field, and then `d`
/// into `a`, is merging `d` into `a` and then the change.
pub proof fn lemma_merge_updated(
    a: FieldsModel,
    d: FieldsModel,
    i: int,
    v: OpModel,
    counted: Set<Seq<AccessModel>>,
)
    requires
        fields_in(a, counted),
        fields_in(d, counted),
        unique_keys(d),
        0 <= i < d.len(),
        entry_in((d[i].0, v), counted),
    ensures
        merge_fields(a, d) is Ok,
        merge_op(d[i].1, v) is Ok,
        merge_one(merge_fields(a, d)->Ok_0, d[i].0, v, op_merger()) is Ok,
        merge_one(merge_fields(a, d)->Ok_0, d[i].0, v, op_merger()) == merge_fields(
            a,
            d.update(i, (d[i].0, merge_op(d[i].1, v)->Ok_0)),
        ),
    decreases d.len(),
{
    let k = d[i].0;
    let x = d[i].1;
    assert(entry_in(d[i], counted));
    lemma_merge_op_in_family(k, x, v, counted);
    let y = merge_op(x, v)->Ok_0;
    let updated = d.update(i, (k, y));
    let rest = d.drop_last();
    assert forall|j: int| 0 <= j < rest.len() implies entry_in(#[trigger] rest[j], counted) by {
        assert(entry_in(d[j], counted));
    }
    assert forall|p: int, q: int| 0 <= p < q < rest.len() implies (#[trigger] rest[p]).0 != (
    #[trigger] rest[q]).0 by {
        assert(d[p].0 != d[q].0);
    }
    lemma_merge_stays_in_family(a, d, counted);
    lemma_merge_stays_in_family(a, rest, counted);
    let m = merge_fields(a, rest)->Ok_0;
    lemma_merge_all_keys(a, rest, op_merger());
    if i == d.len() - 1 {
        assert(updated.drop_last() =~= rest);
        assert(updated.last() == (k, y));
        assert(merge_fields(a, updated) == merge_one(m, k, y, op_merger()));
        assert(merge_fields(a, d) == merge_one(m, k, x, op_merger()));
        assert(!has_key(rest, k)) by {
            if has_key(rest, k) {
                let w = choose|w: int| 0 <= w < rest.len() && (#[trigger] rest[w]).0 == k;
                assert(d[w].0 != d[i].0);
            }
        }
        let m1 = merge_one(m, k, x, op_merger())->Ok_0;
        lemma_merge_one_keys(m, k, x, op_merger());
        if has_key(m, k) {
            lemma_has_key_first(m, k);
            let j = first_index(m, k);
            assert(entry_in(m[j], counted));
            lemma_merge_op_in_family(k, m[j].1, x, counted);
            lemma_merge_op_in_family(k, m[j].1, y, counted);
            lemma_merge_op_associative(m[j].1, x, v);
            assert(m1[j].0 == k);
            assert forall|q: int| 0 <= q < j implies (#[trigger] m1[q]).0 != k by {
                assert(m[q].0 != k);
            }
            lemma_first_index(m1, k, j);
            assert(m1.update(j, (k, merge_op(m1[j].1, v)->Ok_0)) =~= m.update(
                j,
                (k, merge_op(m[j].1, y)->Ok_0),
            ));
        } else {
            let j = m.len() as int;
            assert(m1[j].0 == k);
            assert forall|q: int| 0 <= q < j implies (#[trigger] m1[q]).0 != k by {
                assert(m[q].0 != k);
            }
            lemma_first_index(m1, k, j);
            assert(m1.update(j, (k, y)) =~= m.push((k, y)));
        }
    } else {
        let other = d.last().0;
        let w = d.last().1;
        assert(d[i].0 != d[d.len() - 1].0);
        assert(updated.drop_last() =~= rest.update(i, (k, y)));
        assert(updated.last() == (other, w));
        lemma_merge_updated(a, rest, i, v, counted);
        let m1 = merge_one(m, k, v, op_merger())->Ok_0;
        assert(merge_fields(a, updated) == merge_one(m1, other, w, op_merger()));
        assert(merge_fields(a, d) == merge_one(m, other, w, op_merger()));
        assert(has_key(m, k)) by {
            assert(rest[i].0 == k);
        }
        lemma_merge_one_commutes(m, k, v, other, w, op_merger());
    }
}

/// Merging `d` into `a` and then one more entry is merging into `a` what
/// `d` is with that entry.
pub proof fn lemma_merge_then_one(
    a: FieldsModel,
    d: FieldsModel,
    k: Seq<AccessModel>,
    v: OpModel,
    counted: Set<Seq<AccessModel>>,
)
    requires
        fields_in(a, counted),
        fields_in(d, counted),
        unique_keys(d),
        entry_in((k, v), counted),
    ensures
        merge_fields(a, d) is Ok,
        merge_one(d, k, v, op_merger()) is Ok,
        merge_one(merge_fields(a, d)->Ok_0, k, v, op_merger()) is Ok,
        merge_one(merge_fields(a, d)->Ok_0, k, v, op_merger()) == merge_fields(
            a,
            merge_one(d, k, v, op_merger())->Ok_0,
        ),
{
    lemma_merge_stays_in_family(a, d, counted);
    if has_key(d, k) {
        lemma_has_key_first(d, k);
        let i = first_index(d, k);
        lemma_merge_updated(a, d, i, v, counted);
    } else {
        let pushed = d.push((k, v));
        assert(pushed.drop_last() =~= d);
        assert(pushed.last() == (k, v));
        assert forall|j: int| 0 <= j < pushed.len() implies entry_in(
            #[trigger] pushed[j],
            counted,
        ) by {
            if j < d.len() {
                assert(entry_in(d[j], counted));
            }
        }
        lemma_merge_stays_in_family(a, pushed, counted);
    }
}

/// The merge of the changes to the fields of a resource is associative:
/// for changes that keep, field by field, to one family, none of them a rise
/// or a fall by zero, and of which the middle ones speak of no field twice.
pub proof fn lemma_merge_fields_associative_on(
    a: FieldsModel,
    b: FieldsModel,
    c: FieldsModel,
    counted: Set<Seq<AccessModel>>,
)
    requires
        fields_in(a, counted),
        fields_in(b, counted),
        fields_in(c, counted),
        unique_keys(b),
    ensures
        merge_fields(a, b) is Ok,
        merge_fields(b, c) is Ok,
        merge_fields(merge_fields(a, b)->Ok_0, c) is Ok,
        merge_fields(merge_fields(a, b)->Ok_0, c) == merge_fields(a, merge_fields(b, c)->Ok_0),
    decreases c.len(),
{
    lemma_merge_stays_in_family(a, b, counted);
    lemma_merge_stays_in_family(b, c, counted);
    let ab = merge_fields(a, b)->Ok_0;
    lemma_merge_stays_in_family(ab, c, counted);
    if c.len() > 0 {
        let rest = c.drop_last();
        let k = c.last().0;
        let v = c.last().1;
        assert forall|i: int| 0 <= i < rest.len() implies entry_in(
            #[trigger] rest[i],
            counted,
        ) by {
            assert(entry_in(c[i], counted));
        }
        assert(entry_in(c[c.len() - 1], counted));
        lemma_merge_fields_associative_on(a, b, rest, counted);
        lemma_merge_stays_in_family(b, rest, counted);
        lemma_merge_all_keys(b, rest, op_merger());
        let bc = merge_fields(b, rest)->Ok_0;
        lemma_merge_then_one(a, bc, k, v, counted);
    }
}


/// The merge of the changes to the fields of a resource fails only where
/// two changes to one field do not combine, and then as a whole.
pub proof fn lemma_merge_fields_failure(first: FieldsModel, second: FieldsModel)
    requires
        merge_fields(first, second) is Err,
    ensures
        merge_fields(first, second) == Err::<FieldsModel, ChangeSetError>(
            ChangeSetError::IncompatibleOps,
        ),
{
    lemma_merge_all_failure(first, second, op_merger(), ChangeSetError::IncompatibleOps);
}

/// The merge of two change sets fails only where two changes to one field
/// of one resource do not combine, and then as a whole.
pub proof fn lemma_merge_change_sets_failure(first: ChangeSetModel, second: ChangeSetModel)
    requires
        merge_change_sets(first, second) is Err,
    ensures
        merge_change_sets(first, second) == Err::<ChangeSetModel, ChangeSetError>(
            ChangeSetError::IncompatibleOps,
        ),
{
    assert forall|a: FieldsModel, b: FieldsModel| (#[trigger] fields_merger()(a, b)) is Err implies
        fields_merger()(a, b) == Err::<FieldsModel, ChangeSetError>(
        ChangeSetError::IncompatibleOps,
    ) by {
        lemma_merge_fields_failure(a, b);
    }
    lemma_merge_all_failure(first, second, fields_merger(), ChangeSetError::IncompatibleOps);
}

} // verus!
