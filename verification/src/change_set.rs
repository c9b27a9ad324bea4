//! State deltas and their merge: a change to one field, the changes to the
//! fields of one resource, and the changes to a set of resources.

use vstd::prelude::*;
use vstd::std_specs::iter::IteratorSpec;
use crate::access_path::{AccessModel, AccessPath, AccessPathModel, Accesses};
use crate::keyed::{
    first_index, has_key, is_first, lemma_first_index, lemma_has_key_first, lemma_merge_all_added,
    lemma_merge_all_fails, lemma_merge_all_keys, lemma_merge_all_step,
    lemma_merge_all_untouched, lemma_merge_all_values, lemma_merge_within_after_failure, lookup,
    merge_all, merge_within, step_within, unique_keys,
};
use crate::value::Value;

verus! {

/// Why a change set was refused.
#[derive(Clone, Copy, Debug, PartialEq, Eq, Structural)]
pub enum ChangeSetError {
    /// Two changes to one field come from families that do not combine:
    /// a counted change met a stored one.
    IncompatibleOps,
    /// Two entries of a change set speak of the same resource.
    DuplicateAccessPath,
    /// Two entries for one resource speak of the same field.
    DuplicateAccesses,
}

/// The net effect on one field of a resource.
#[derive(Debug)]
pub enum ChangeOp {
    /// The field is left as it is.
    NoChange,
    /// The field, a number, grows by the amount.
    Plus(u64),
    /// The field, a number, shrinks by the amount.
    Minus(u64),
    /// The field is overwritten with the value.
    Update(Value),
    /// The field is deleted.
    Deletion,
}

/// What a [`ChangeOp`] denotes. Amounts are unbounded here; those of a
/// `ChangeOp` fit in 64 bits.
pub enum OpModel {
    NoChange,
    Plus(nat),
    Minus(nat),
    Update(Seq<u8>),
    Deletion,
}

impl View for ChangeOp {
    type V = OpModel;

    open spec fn view(&self) -> OpModel {
        match self {
            ChangeOp::NoChange => OpModel::NoChange,
            ChangeOp::Plus(amount) => OpModel::Plus(*amount as nat),
            ChangeOp::Minus(amount) => OpModel::Minus(*amount as nat),
            ChangeOp::Update(value) => OpModel::Update(value@),
            ChangeOp::Deletion => OpModel::Deletion,
        }
    }
}

/// The change that moves a number by `delta`.
pub open spec fn net_change(delta: int) -> OpModel {
    if delta == 0 {
        OpModel::NoChange
    } else if delta > 0 {
        OpModel::Plus(delta as nat)
    } else {
        OpModel::Minus((-delta) as nat)
    }
}

/// The effect of `first` followed by `second` on one field.
pub open spec fn merge_op(first: OpModel, second: OpModel) -> Result<OpModel, ChangeSetError> {
    match (first, second) {
        (OpModel::NoChange, _) => Ok(second),
        (_, OpModel::NoChange) => Ok(first),
        (OpModel::Plus(a), OpModel::Plus(b)) => Ok(OpModel::Plus(a + b)),
        (OpModel::Minus(a), OpModel::Minus(b)) => Ok(OpModel::Minus(a + b)),
        (OpModel::Plus(a), OpModel::Minus(b)) => Ok(net_change(a - b)),
        (OpModel::Minus(a), OpModel::Plus(b)) => Ok(net_change(b - a)),
        (OpModel::Update(_), OpModel::Update(_)) => Ok(second),
        (OpModel::Update(_), OpModel::Deletion) => Ok(second),
        (OpModel::Deletion, OpModel::Update(_)) => Ok(second),
        (OpModel::Deletion, OpModel::Deletion) => Ok(second),
        _ => Err(ChangeSetError::IncompatibleOps),
    }
}

/// The change counts: it leaves the field, or moves a number up or down.
pub open spec fn is_counted(op: OpModel) -> bool {
    op is NoChange || op is Plus || op is Minus
}

/// The change stores: it leaves the field, overwrites it or deletes it.
pub open spec fn is_stored(op: OpModel) -> bool {
    op is NoChange || op is Update || op is Deletion
}

/// The amount of the change, where it has one, is at most `u64::MAX`.
pub open spec fn op_fits(op: OpModel) -> bool {
    match op {
        OpModel::Plus(a) => a <= u64::MAX,
        OpModel::Minus(a) => a <= u64::MAX,
        _ => true,
    }
}

/// The merge of `first` and `second` holds an amount of at most `u64::MAX`,
/// or none, or fails.
pub open spec fn merge_op_fits(first: OpModel, second: OpModel) -> bool {
    match merge_op(first, second) {
        Ok(merged) => op_fits(merged),
        Err(_) => true,
    }
}

impl Clone for ChangeOp {
    fn clone(&self) -> (copy: Self)
        ensures
            copy@ == self@,
    {
        match self {
            ChangeOp::NoChange => ChangeOp::NoChange,
            ChangeOp::Plus(amount) => ChangeOp::Plus(*amount),
            ChangeOp::Minus(amount) => ChangeOp::Minus(*amount),
            ChangeOp::Update(value) => ChangeOp::Update(value.clone()),
            ChangeOp::Deletion => ChangeOp::Deletion,
        }
    }
}

impl ChangeOp {
    pub fn is_none(&self) -> (none: bool)
        ensures
            none == (self@ is NoChange),
    {
        match self {
            ChangeOp::NoChange => true,
            _ => false,
        }
    }

    pub fn is_deletion(&self) -> (deletion: bool)
        ensures
            deletion == (self@ is Deletion),
    {
        match self {
            ChangeOp::Deletion => true,
            _ => false,
        }
    }

    /// The amount by which the change moves the field up, if that is what it does.
    pub fn as_plus(&self) -> (amount: Option<u64>)
        ensures
            match amount {
                Some(a) => self@ == OpModel::Plus(a as nat),
                None => !(self@ is Plus),
            },
    {
        match self {
            ChangeOp::Plus(value) => Some(*value),
            _ => None,
        }
    }

    /// The amount by which the change moves the field down, if that is what it does.
    pub fn as_minus(&self) -> (amount: Option<u64>)
        ensures
            match amount {
                Some(a) => self@ == OpModel::Minus(a as nat),
                None => !(self@ is Minus),
            },
    {
        match self {
            ChangeOp::Minus(value) => Some(*value),
            _ => None,
        }
    }

    /// Tells whether the merge of `first` and `second` stays within 64 bits:
    /// it does not where both are rises, or both falls, by amounts whose sum
    /// passes `u64::MAX`.
    pub fn merge_fits(first: &ChangeOp, second: &ChangeOp) -> (fits: bool)
        ensures
            fits == merge_op_fits(first@, second@),
    {
        match (first, second) {
            (ChangeOp::Plus(a), ChangeOp::Plus(b)) => *b <= u64::MAX - *a,
            (ChangeOp::Minus(a), ChangeOp::Minus(b)) => *b <= u64::MAX - *a,
            _ => true,
        }
    }

    /// Follows this change by `other`, in place, and returns the change as
    /// it was before. Where the two do not combine, the change stays as it is.
    pub fn merge_with(&mut self, other: &ChangeOp) -> (previous: Result<ChangeOp, ChangeSetError>)
        requires
            merge_op_fits(old(self)@, other@),
        ensures
            match merge_op(old(self)@, other@) {
                Ok(merged) => previous is Ok && previous->Ok_0@ == old(self)@ && final(self)@
                    == merged,
                Err(e) => previous == Err::<ChangeOp, ChangeSetError>(e) && final(self)@ == old(
                    self,
                )@,
            },
    {
        let mut change_op = Self::merge(self, other)?;
        std::mem::swap(self, &mut change_op);
        Ok(change_op)
    }

    /// The effect of `first` followed by `second`. Fails where one counts
    /// and the other stores.
    pub fn merge(first: &ChangeOp, second: &ChangeOp) -> (merged: Result<ChangeOp, ChangeSetError>)
        requires
            merge_op_fits(first@, second@),
        ensures
            match merge_op(first@, second@) {
                Ok(op) => merged is Ok && merged->Ok_0@ == op,
                Err(e) => merged == Err::<ChangeOp, ChangeSetError>(e),
            },
    {
        match first {
            ChangeOp::NoChange => Ok(second.clone()),
            ChangeOp::Plus(first_value) => {
                match second {
                    ChangeOp::NoChange => Ok(ChangeOp::Plus(*first_value)),
                    ChangeOp::Plus(second_value) => Ok(
                        ChangeOp::Plus(*first_value + *second_value),
                    ),
                    ChangeOp::Minus(second_value) => {
                        if *first_value == *second_value {
                            Ok(ChangeOp::NoChange)
                        } else if *first_value > *second_value {
                            Ok(ChangeOp::Plus(*first_value - *second_value))
                        } else {
                            Ok(ChangeOp::Minus(*second_value - *first_value))
                        }
                    },
                    _ => Err(ChangeSetError::IncompatibleOps),
                }
            },
            ChangeOp::Minus(first_value) => {
                match second {
                    ChangeOp::NoChange => Ok(ChangeOp::Minus(*first_value)),
                    ChangeOp::Plus(second_value) => {
                        if *first_value == *second_value {
                            Ok(ChangeOp::NoChange)
                        } else if *first_value > *second_value {
                            Ok(ChangeOp::Minus(*first_value - *second_value))
                        } else {
                            Ok(ChangeOp::Plus(*second_value - *first_value))
                        }
                    },
                    ChangeOp::Minus(second_value) => Ok(
                        ChangeOp::Minus(*first_value + *second_value),
                    ),
                    _ => Err(ChangeSetError::IncompatibleOps),
                }
            },
            ChangeOp::Update(first_value) => {
                match second {
                    ChangeOp::NoChange => Ok(ChangeOp::Update(first_value.clone())),
                    ChangeOp::Update(second_value) => Ok(ChangeOp::Update(second_value.clone())),
                    ChangeOp::Deletion => Ok(ChangeOp::Deletion),
                    _ => Err(ChangeSetError::IncompatibleOps),
                }
            },
            ChangeOp::Deletion => {
                match second {
                    ChangeOp::NoChange => Ok(ChangeOp::Deletion),
                    ChangeOp::Deletion => Ok(ChangeOp::Deletion),
                    ChangeOp::Update(second_value) => Ok(ChangeOp::Update(second_value.clone())),
                    _ => Err(ChangeSetError::IncompatibleOps),
                }
            },
        }
    }
}


/// What a [`FieldChanges`] denotes: its entries in order, each a selector
/// and the change to the field it selects.
pub type FieldsModel = Seq<(Seq<AccessModel>, OpModel)>;

/// What the entries `s` denote.
pub open spec fn entries_model(s: Seq<(Accesses, ChangeOp)>) -> FieldsModel {
    Seq::new(s.len(), |i: int| (s[i].0@, s[i].1@))
}

/// [`merge_op`] as a value.
pub open spec fn op_merger() -> spec_fn(OpModel, OpModel) -> Result<OpModel, ChangeSetError> {
    |first: OpModel, second: OpModel| merge_op(first, second)
}

/// [`merge_op_fits`] as a value.
pub open spec fn op_fitter() -> spec_fn(OpModel, OpModel) -> bool {
    |first: OpModel, second: OpModel| merge_op_fits(first, second)
}

/// The changes `first` followed by the changes `second`: each entry of
/// `second`, in order, is merged into the first entry for its selector, or
/// put at the end where there is none.
pub open spec fn merge_fields(first: FieldsModel, second: FieldsModel) -> Result<
    FieldsModel,
    ChangeSetError,
> {
    merge_all(first, second, op_merger())
}

/// Every amount that the merge of `second` into `first` computes, up to its
/// end or its failure, is at most `u64::MAX`.
pub open spec fn merge_fields_fits(first: FieldsModel, second: FieldsModel) -> bool {
    merge_within(first, second, op_merger(), op_fitter())
}

/// Whether an entry changes its field.
pub open spec fn changes_field() -> spec_fn((Seq<AccessModel>, OpModel)) -> bool {
    |entry: (Seq<AccessModel>, OpModel)| !(entry.1 is NoChange)
}

/// The entries of `s` that change their field, in their order.
pub open spec fn without_unchanged(s: FieldsModel) -> FieldsModel {
    s.filter(changes_field())
}

/// The changes to the fields of one resource, in the order in which they
/// were recorded.
#[derive(Debug)]
pub struct FieldChanges(Vec<(Accesses, ChangeOp)>);

impl View for FieldChanges {
    type V = FieldsModel;

    closed spec fn view(&self) -> FieldsModel {
        entries_model(self.0@)
    }
}

impl Clone for FieldChanges {
    fn clone(&self) -> (copy: Self)
        ensures
            copy@ == self@,
    {
        let mut entries: Vec<(Accesses, ChangeOp)> = Vec::new();
        let mut i: usize = 0;
        while i < self.0.len()
            invariant
                i <= self.0.len(),
                entries@.len() == i,
                forall|j: int|
                    0 <= j < i ==> entries@[j].0@ == self.0@[j].0@ && entries@[j].1@
                        == self.0@[j].1@,
            decreases self.0.len() - i,
        {
            entries.push((self.0[i].0.clone(), self.0[i].1.clone()));
            i += 1;
        }
        let copy = FieldChanges(entries);
        assert(copy@ =~= self@);
        copy
    }
}

impl FieldChanges {
    pub fn empty() -> (changes: Self)
        ensures
            changes@ == Seq::<(Seq<AccessModel>, OpModel)>::empty(),
    {
        let changes = FieldChanges(Vec::new());
        assert(changes@ =~= Seq::<(Seq<AccessModel>, OpModel)>::empty());
        changes
    }

    pub fn new(changes: Vec<(Accesses, ChangeOp)>) -> (made: Self)
        ensures
            made@ == entries_model(changes@),
    {
        FieldChanges(changes)
    }

    #[inline]
    pub fn len(&self) -> (n: usize)
        ensures
            n == self@.len(),
    {
        self.0.len()
    }

    #[inline]
    pub fn is_empty(&self) -> (empty: bool)
        ensures
            empty == (self@.len() == 0),
    {
        self.0.len() == 0
    }

    /// Moves the entries of `other` to the end of these, and leaves `other` empty.
    pub fn append(&mut self, other: &mut FieldChanges)
        ensures
            final(self)@ == old(self)@ + old(other)@,
            final(other)@ == Seq::<(Seq<AccessModel>, OpModel)>::empty(),
    {
        self.0.append(&mut other.0);
        assert(self@ =~= old(self)@ + old(other)@);
        assert(other@ =~= Seq::<(Seq<AccessModel>, OpModel)>::empty());
    }

    pub fn push(&mut self, item: (Accesses, ChangeOp))
        ensures
            final(self)@ == old(self)@.push((item.0@, item.1@)),
    {
        self.0.push(item);
        assert(self@ =~= old(self)@.push((item.0@, item.1@)));
    }

    /// The change recorded for the field that `accesses` selects: that of the
    /// first entry for it.
    pub fn get_change(&self, accesses: &Accesses) -> (found: Option<&ChangeOp>)
        ensures
            match found {
                Some(op) => lookup(self@, accesses@) == Some(op@),
                None => lookup(self@, accesses@) is None,
            },
    {
        let mut i: usize = 0;
        while i < self.0.len()
            invariant
                i <= self.0.len(),
                forall|j: int| 0 <= j < i ==> (#[trigger] self@[j]).0 != accesses@,
            decreases self.0.len() - i,
        {
            if self.0[i].0 == *accesses {
                proof {
                    lemma_first_index(self@, accesses@, i as int);
                }
                return Some(&self.0[i].1);
            }
            i += 1;
        }
        None
    }

    /// The change recorded for the field that `accesses` selects, to be
    /// changed in place.
    pub fn get_change_mut(&mut self, accesses: &Accesses) -> (found: Option<&mut ChangeOp>)
        ensures
            match found {
                Some(slot) => {
                    let i = first_index(old(self)@, accesses@);
                    &&& is_first(old(self)@, accesses@, i)
                    &&& slot@ == old(self)@[i].1
                    &&& final(self)@ == old(self)@.update(i, (accesses@, final(slot)@))
                },
                None => !has_key(old(self)@, accesses@) && final(self)@ == old(self)@,
            },
    {
        let mut i: usize = 0;
        while i < self.0.len()
            invariant
                i <= self.0.len(),
                self.0@ == old(self).0@,
                forall|j: int| 0 <= j < i ==> (#[trigger] old(self)@[j]).0 != accesses@,
            decreases self.0.len() - i,
        {
            if self.0[i].0 == *accesses {
                proof {
                    assert(self@ == old(self)@);
                    lemma_first_index(old(self)@, accesses@, i as int);
                }
                let slot = &mut self.0[i].1;
                proof {
                    assert(entries_model(
                        old(self).0@.update(i as int, (old(self).0@[i as int].0, *final(slot))),
                    ) =~= old(self)@.update(i as int, (accesses@, final(slot)@)));
                }
                return Some(slot);
            }
            i += 1;
        }
        None
    }

    /// Tells whether the merge of `second` into `first` stays within 64
    /// bits, up to its end or its failure.
    pub fn merge_fits(first: &FieldChanges, second: &FieldChanges) -> (fits: bool)
        ensures
            fits == merge_fields_fits(first@, second@),
    {
        let mut changes = first.clone();
        let mut i: usize = 0;
        assert(second@.take(0) =~= Seq::<(Seq<AccessModel>, OpModel)>::empty());
        while i < second.0.len()
            invariant
                i <= second.0.len(),
                forall|n: int|
                    0 <= n < i ==> #[trigger] step_within(
                        first@,
                        second@,
                        op_merger(),
                        op_fitter(),
                        n,
                    ),
                merge_all(first@, second@.take(i as int), op_merger()) == Ok::<
                    FieldsModel,
                    ChangeSetError,
                >(changes@),
            decreases second.0.len() - i,
        {
            proof {
                lemma_merge_all_step(first@, second@, op_merger(), i as int);
            }
            let entry = &second.0[i];
            match changes.get_change_mut(&entry.0) {
                Some(change_op) => {
                    if !ChangeOp::merge_fits(change_op, &entry.1) {
                        assert(!step_within(first@, second@, op_merger(), op_fitter(), i as int));
                        return false;
                    }
                    match change_op.merge_with(&entry.1) {
                        Ok(_) => {},
                        Err(_) => {
                            proof {
                                lemma_merge_within_after_failure(
                                    first@,
                                    second@,
                                    op_merger(),
                                    op_fitter(),
                                    i as int + 1,
                                );
                            }
                            return true;
                        },
                    }
                },
                None => {
                    changes.push((entry.0.clone(), entry.1.clone()));
                },
            }
            i += 1;
        }
        true
    }

    /// Follows these changes by `other`, in place, and returns the changes as
    /// they were before. Where the merge fails, the changes stay as they are.
    pub fn merge_with(&mut self, other: &FieldChanges) -> (previous: Result<
        FieldChanges,
        ChangeSetError,
    >)
        requires
            merge_fields_fits(old(self)@, other@),
        ensures
            match merge_fields(old(self)@, other@) {
                Ok(merged) => previous is Ok && previous->Ok_0@ == old(self)@ && final(self)@
                    == merged,
                Err(e) => previous == Err::<FieldChanges, ChangeSetError>(e) && final(self)@
                    == old(self)@,
            },
    {
        let mut changes = Self::merge(self, other)?;
        std::mem::swap(self, &mut changes);
        Ok(changes)
    }

    /// The changes `first` followed by the changes `second`. Fails where a
    /// change of `second` does not combine with the one it meets.
    pub fn merge(first: &FieldChanges, second: &FieldChanges) -> (merged: Result<
        FieldChanges,
        ChangeSetError,
    >)
        requires
            merge_fields_fits(first@, second@),
        ensures
            match merge_fields(first@, second@) {
                Ok(changes) => merged is Ok && merged->Ok_0@ == changes,
                Err(e) => merged == Err::<FieldChanges, ChangeSetError>(e),
            },
            merged is Ok && unique_keys(first@) ==> unique_keys(merged->Ok_0@),
    {
        proof {
            if merge_fields(first@, second@) is Ok {
                lemma_merge_all_keys(first@, second@, op_merger());
            }
        }
        let mut changes = first.clone();
        let mut i: usize = 0;
        assert(second@.take(0) =~= Seq::<(Seq<AccessModel>, OpModel)>::empty());
        while i < second.0.len()
            invariant
                i <= second.0.len(),
                merge_fields_fits(first@, second@),
                merge_all(first@, second@.take(i as int), op_merger()) == Ok::<
                    FieldsModel,
                    ChangeSetError,
                >(changes@),
            decreases second.0.len() - i,
        {
            proof {
                lemma_merge_all_step(first@, second@, op_merger(), i as int);
                assert(step_within(first@, second@, op_merger(), op_fitter(), i as int));
            }
            let entry = &second.0[i];
            match changes.get_change_mut(&entry.0) {
                Some(change_op) => {
                    match change_op.merge_with(&entry.1) {
                        Ok(_) => {},
                        Err(e) => {
                            proof {
                                lemma_merge_all_fails(
                                    first@,
                                    second@,
                                    op_merger(),
                                    i as int + 1,
                                );
                            }
                            return Err(e);
                        },
                    }
                },
                None => {
                    changes.push((entry.0.clone(), entry.1.clone()));
                },
            }
            i += 1;
        }
        assert(second@.take(second@.len() as int) =~= second@);
        Ok(changes)
    }

    /// Drops the entries that leave their field as it is, and keeps the
    /// others in their order.
    pub fn filter_none(&mut self)
        ensures
            final(self)@ == without_unchanged(old(self)@),
            unique_keys(old(self)@) ==> unique_keys(final(self)@),
    {
        proof {
            if unique_keys(old(self)@) {
                lemma_without_unchanged_keeps_unique(old(self)@);
            }
        }
        let mut kept: Vec<(Accesses, ChangeOp)> = Vec::new();
        let mut i: usize = 0;
        proof {
            reveal(Seq::filter);
            assert(self@.take(0) =~= Seq::<(Seq<AccessModel>, OpModel)>::empty());
            assert(entries_model(kept@) =~= without_unchanged(self@.take(0)));
        }
        while i < self.0.len()
            invariant
                i <= self.0.len(),
                self.0@ == old(self).0@,
                entries_model(kept@) == without_unchanged(old(self)@.take(i as int)),
            decreases self.0.len() - i,
        {
            let ghost prefix = old(self)@.take(i as int + 1);
            let ghost keep = changes_field();
            proof {
                reveal(Seq::filter);
                assert(prefix.drop_last() =~= old(self)@.take(i as int));
                assert(prefix.last() == old(self)@[i as int]);
                assert(old(self)@[i as int] == (self.0@[i as int].0@, self.0@[i as int].1@));
                assert(prefix.filter(keep) == if keep(prefix.last()) {
                    prefix.drop_last().filter(keep).push(prefix.last())
                } else {
                    prefix.drop_last().filter(keep)
                });
            }
            if !self.0[i].1.is_none() {
                let ghost before = kept@;
                kept.push((self.0[i].0.clone(), self.0[i].1.clone()));
                assert(entries_model(kept@) =~= entries_model(before).push(old(self)@[i as int]));
            }
            i += 1;
        }
        assert(old(self)@.take(old(self)@.len() as int) =~= old(self)@);
        self.0 = kept;
    }
}


/// What a change set denotes: its entries in order, each the address of a
/// resource and the changes to the fields of that resource.
pub type ChangeSetModel = Seq<(AccessPathModel, FieldsModel)>;

/// What the entries `s` denote.
pub open spec fn resources_model(s: Seq<(AccessPath, FieldChanges)>) -> ChangeSetModel {
    Seq::new(s.len(), |i: int| (s[i].0@, s[i].1@))
}

/// [`merge_fields`] as a value.
pub open spec fn fields_merger() -> spec_fn(FieldsModel, FieldsModel) -> Result<
    FieldsModel,
    ChangeSetError,
> {
    |first: FieldsModel, second: FieldsModel| merge_fields(first, second)
}

/// [`merge_fields_fits`] as a value.
pub open spec fn fields_fitter() -> spec_fn(FieldsModel, FieldsModel) -> bool {
    |first: FieldsModel, second: FieldsModel| merge_fields_fits(first, second)
}

/// The change set `first` followed by the change set `second`: each entry
/// of `second`, in order, is merged into the first entry for its resource, or
/// put at the end where there is none.
pub open spec fn merge_change_sets(first: ChangeSetModel, second: ChangeSetModel) -> Result<
    ChangeSetModel,
    ChangeSetError,
> {
    merge_all(first, second, fields_merger())
}

/// Every amount that the merge of `second` into `first` computes, up to its
/// end or its failure, is at most `u64::MAX`.
pub open spec fn merge_change_sets_fits(first: ChangeSetModel, second: ChangeSetModel) -> bool {
    merge_within(first, second, fields_merger(), fields_fitter())
}

/// The structure that a frozen change set has: no resource occurs twice, and
/// for no resource a field occurs twice.
pub open spec fn well_formed(m: ChangeSetModel) -> bool {
    &&& unique_keys(m)
    &&& forall|i: int| 0 <= i < m.len() ==> unique_keys((#[trigger] m[i]).1)
}

/// What freezing `m` answers: the first fault of its structure, if it has one.
pub open spec fn structure_fault(m: ChangeSetModel) -> Option<ChangeSetError> {
    if !unique_keys(m) {
        Some(ChangeSetError::DuplicateAccessPath)
    } else if !well_formed(m) {
        Some(ChangeSetError::DuplicateAccesses)
    } else {
        None
    }
}

impl FieldChanges {
    /// Tells whether no field occurs twice in these changes.
    pub fn has_unique_accesses(&self) -> (unique: bool)
        ensures
            unique == unique_keys(self@),
    {
        let mut j: usize = 0;
        while j < self.0.len()
            invariant
                j <= self.0.len(),
                forall|a: int, b: int|
                    0 <= a < b < j ==> (#[trigger] self@[a]).0 != (#[trigger] self@[b]).0,
            decreases self.0.len() - j,
        {
            let mut i: usize = 0;
            while i < j
                invariant
                    i <= j < self.0.len(),
                    forall|a: int| 0 <= a < i ==> (#[trigger] self@[a]).0 != self@[j as int].0,
                decreases j - i,
            {
                if self.0[i].0 == self.0[j].0 {
                    assert(self@[i as int].0 == self@[j as int].0);
                    return false;
                }
                i += 1;
            }
            j += 1;
        }
        true
    }
}

/// A change set under construction: the changes to a set of resources, in
/// the order in which they were recorded.
#[derive(Debug)]
pub struct ChangeSetMut {
    change_set: Vec<(AccessPath, FieldChanges)>,
}

impl View for ChangeSetMut {
    type V = ChangeSetModel;

    closed spec fn view(&self) -> ChangeSetModel {
        resources_model(self.change_set@)
    }
}

impl Clone for ChangeSetMut {
    fn clone(&self) -> (copy: Self)
        ensures
            copy@ == self@,
    {
        let mut entries: Vec<(AccessPath, FieldChanges)> = Vec::new();
        let mut i: usize = 0;
        while i < self.change_set.len()
            invariant
                i <= self.change_set.len(),
                entries@.len() == i,
                forall|j: int|
                    0 <= j < i ==> entries@[j].0@ == self.change_set@[j].0@ && entries@[j].1@
                        == self.change_set@[j].1@,
            decreases self.change_set.len() - i,
        {
            entries.push((self.change_set[i].0.clone(), self.change_set[i].1.clone()));
            i += 1;
        }
        let copy = ChangeSetMut { change_set: entries };
        assert(copy@ =~= self@);
        copy
    }
}

impl Default for ChangeSetMut {
    fn default() -> (empty: Self)
        ensures
            empty@ == Seq::<(AccessPathModel, FieldsModel)>::empty(),
    {
        let empty = ChangeSetMut { change_set: Vec::new() };
        assert(empty@ =~= Seq::<(AccessPathModel, FieldsModel)>::empty());
        empty
    }
}

impl ChangeSetMut {
    pub fn new(change_set: Vec<(AccessPath, FieldChanges)>) -> (made: Self)
        ensures
            made@ == resources_model(change_set@),
    {
        Self { change_set }
    }

    pub fn push(&mut self, item: (AccessPath, FieldChanges))
        ensures
            final(self)@ == old(self)@.push((item.0@, item.1@)),
    {
        self.change_set.push(item);
        assert(self@ =~= old(self)@.push((item.0@, item.1@)));
    }

    #[inline]
    pub fn len(&self) -> (n: usize)
        ensures
            n == self@.len(),
    {
        self.change_set.len()
    }

    #[inline]
    pub fn is_empty(&self) -> (empty: bool)
        ensures
            empty == (self@.len() == 0),
    {
        self.change_set.len() == 0
    }

    /// Tells whether no resource occurs twice in this change set.
    pub fn has_unique_access_paths(&self) -> (unique: bool)
        ensures
            unique == unique_keys(self@),
    {
        let mut j: usize = 0;
        while j < self.change_set.len()
            invariant
                j <= self.change_set.len(),
                forall|a: int, b: int|
                    0 <= a < b < j ==> (#[trigger] self@[a]).0 != (#[trigger] self@[b]).0,
            decreases self.change_set.len() - j,
        {
            let mut i: usize = 0;
            while i < j
                invariant
                    i <= j < self.change_set.len(),
                    forall|a: int| 0 <= a < i ==> (#[trigger] self@[a]).0 != self@[j as int].0,
                decreases j - i,
            {
                if self.change_set[i].0 == self.change_set[j].0 {
                    assert(self@[i as int].0 == self@[j as int].0);
                    return false;
                }
                i += 1;
            }
            j += 1;
        }
        true
    }

    /// Checks the structure of the change set and, where it is sound, gives
    /// the change set in its frozen form. A change set in which a resource
    /// occurs twice is refused, and so is one in which a field occurs twice
    /// for one resource: such entries would contradict each other.
    pub fn freeze(self) -> (frozen: Result<ChangeSet, ChangeSetError>)
        ensures
            match structure_fault(self@) {
                Some(e) => frozen == Err::<ChangeSet, ChangeSetError>(e),
                None => frozen is Ok && frozen->Ok_0@ == self@,
            },
    {
        if !self.has_unique_access_paths() {
            return Err(ChangeSetError::DuplicateAccessPath);
        }
        let mut i: usize = 0;
        while i < self.change_set.len()
            invariant
                i <= self.change_set.len(),
                unique_keys(self@),
                forall|j: int| 0 <= j < i ==> unique_keys((#[trigger] self@[j]).1),
            decreases self.change_set.len() - i,
        {
            if !self.change_set[i].1.has_unique_accesses() {
                assert(!unique_keys(self@[i as int].1));
                return Err(ChangeSetError::DuplicateAccesses);
            }
            i += 1;
        }
        Ok(ChangeSet(self))
    }

    /// The changes recorded for the resource at `access_path`: those of the
    /// first entry for it.
    pub fn get_changes(&self, access_path: &AccessPath) -> (found: Option<&FieldChanges>)
        ensures
            match found {
                Some(changes) => lookup(self@, access_path@) == Some(changes@),
                None => lookup(self@, access_path@) is None,
            },
    {
        let mut i: usize = 0;
        while i < self.change_set.len()
            invariant
                i <= self.change_set.len(),
                forall|j: int| 0 <= j < i ==> (#[trigger] self@[j]).0 != access_path@,
            decreases self.change_set.len() - i,
        {
            if self.change_set[i].0 == *access_path {
                proof {
                    lemma_first_index(self@, access_path@, i as int);
                }
                return Some(&self.change_set[i].1);
            }
            i += 1;
        }
        None
    }

    /// The changes recorded for the resource at `access_path`, to be changed
    /// in place.
    pub fn get_changes_mut(&mut self, access_path: &AccessPath) -> (found: Option<
        &mut FieldChanges,
    >)
        ensures
            match found {
                Some(slot) => {
                    let i = first_index(old(self)@, access_path@);
                    &&& is_first(old(self)@, access_path@, i)
                    &&& slot@ == old(self)@[i].1
                    &&& final(self)@ == old(self)@.update(i, (access_path@, final(slot)@))
                },
                None => !has_key(old(self)@, access_path@) && final(self)@ == old(self)@,
            },
    {
        let mut i: usize = 0;
        while i < self.change_set.len()
            invariant
                i <= self.change_set.len(),
                self.change_set@ == old(self).change_set@,
                forall|j: int| 0 <= j < i ==> (#[trigger] old(self)@[j]).0 != access_path@,
            decreases self.change_set.len() - i,
        {
            if self.change_set[i].0 == *access_path {
                proof {
                    assert(self@ == old(self)@);
                    lemma_first_index(old(self)@, access_path@, i as int);
                }
                let slot = &mut self.change_set[i].1;
                proof {
                    assert(resources_model(
                        old(self).change_set@.update(
                            i as int,
                            (old(self).change_set@[i as int].0, *final(slot)),
                        ),
                    ) =~= old(self)@.update(i as int, (access_path@, final(slot)@)));
                }
                return Some(slot);
            }
            i += 1;
        }
        None
    }

    /// Tells whether the merge of `second` into `first` stays within 64
    /// bits, up to its end or its failure.
    pub fn merge_fits(first: &ChangeSetMut, second: &ChangeSetMut) -> (fits: bool)
        ensures
            fits == merge_change_sets_fits(first@, second@),
    {
        let mut change_set = first.clone();
        let mut i: usize = 0;
        assert(second@.take(0) =~= Seq::<(AccessPathModel, FieldsModel)>::empty());
        while i < second.change_set.len()
            invariant
                i <= second.change_set.len(),
                forall|n: int|
                    0 <= n < i ==> #[trigger] step_within(
                        first@,
                        second@,
                        fields_merger(),
                        fields_fitter(),
                        n,
                    ),
                merge_all(first@, second@.take(i as int), fields_merger()) == Ok::<
                    ChangeSetModel,
                    ChangeSetError,
                >(change_set@),
            decreases second.change_set.len() - i,
        {
            proof {
                lemma_merge_all_step(first@, second@, fields_merger(), i as int);
            }
            let entry = &second.change_set[i];
            match change_set.get_changes_mut(&entry.0) {
                Some(first_change) => {
                    if !FieldChanges::merge_fits(first_change, &entry.1) {
                        assert(!step_within(
                            first@,
                            second@,
                            fields_merger(),
                            fields_fitter(),
                            i as int,
                        ));
                        return false;
                    }
                    match first_change.merge_with(&entry.1) {
                        Ok(_) => {},
                        Err(_) => {
                            proof {
                                lemma_merge_within_after_failure(
                                    first@,
                                    second@,
                                    fields_merger(),
                                    fields_fitter(),
                                    i as int + 1,
                                );
                            }
                            return true;
                        },
                    }
                },
                None => {
                    change_set.push((entry.0.clone(), entry.1.clone()));
                },
            }
            i += 1;
        }
        true
    }

    /// Follows this change set by `other`, in place, and returns the change
    /// set as it was before. Where the merge fails, it stays as it is.
    pub fn merge_with(&mut self, other: &ChangeSetMut) -> (previous: Result<
        ChangeSetMut,
        ChangeSetError,
    >)
        requires
            merge_change_sets_fits(old(self)@, other@),
        ensures
            match merge_change_sets(old(self)@, other@) {
                Ok(merged) => previous is Ok && previous->Ok_0@ == old(self)@ && final(self)@
                    == merged,
                Err(e) => previous == Err::<ChangeSetMut, ChangeSetError>(e) && final(self)@
                    == old(self)@,
            },
    {
        let mut change_set = Self::merge(self, other)?;
        std::mem::swap(self, &mut change_set);
        Ok(change_set)
    }

    /// The change set `first` followed by the change set `second`. Fails
    /// where, for some resource, a change of `second` does not combine with
    /// the one it meets.
    pub fn merge(first: &ChangeSetMut, second: &ChangeSetMut) -> (merged: Result<
        ChangeSetMut,
        ChangeSetError,
    >)
        requires
            merge_change_sets_fits(first@, second@),
        ensures
            match merge_change_sets(first@, second@) {
                Ok(change_set) => merged is Ok && merged->Ok_0@ == change_set,
                Err(e) => merged == Err::<ChangeSetMut, ChangeSetError>(e),
            },
            merged matches Ok(both) ==> {
                &&& forall|p: AccessPathModel| #[trigger]
                    has_key(both@, p) <==> has_key(first@, p) || has_key(second@, p)
                &&& forall|p: AccessPathModel|
                    !has_key(second@, p) ==> #[trigger] lookup(both@, p) == lookup(first@, p)
                &&& forall|p: AccessPathModel|
                    !has_key(first@, p) && unique_keys(second@) ==> #[trigger] lookup(both@, p)
                        == lookup(second@, p)
            },
    {
        proof {
            if merge_change_sets(first@, second@) is Ok {
                lemma_merge_keeps_resources(first@, second@);
            }
        }
        let mut change_set = first.clone();
        let mut i: usize = 0;
        assert(second@.take(0) =~= Seq::<(AccessPathModel, FieldsModel)>::empty());
        while i < second.change_set.len()
            invariant
                i <= second.change_set.len(),
                merge_change_sets_fits(first@, second@),
                merge_all(first@, second@.take(i as int), fields_merger()) == Ok::<
                    ChangeSetModel,
                    ChangeSetError,
                >(change_set@),
            decreases second.change_set.len() - i,
        {
            proof {
                lemma_merge_all_step(first@, second@, fields_merger(), i as int);
                assert(step_within(first@, second@, fields_merger(), fields_fitter(), i as int));
            }
            let entry = &second.change_set[i];
            match change_set.get_changes_mut(&entry.0) {
                Some(first_change) => {
                    match first_change.merge_with(&entry.1) {
                        Ok(_) => {},
                        Err(e) => {
                            proof {
                                lemma_merge_all_fails(
                                    first@,
                                    second@,
                                    fields_merger(),
                                    i as int + 1,
                                );
                            }
                            return Err(e);
                        },
                    }
                },
                None => {
                    change_set.push((entry.0.clone(), entry.1.clone()));
                },
            }
            i += 1;
        }
        assert(second@.take(second@.len() as int) =~= second@);
        Ok(change_set)
    }
}

/// A change set in its frozen form: its structure has been checked, and it
/// does not change any more.
#[derive(Debug)]
pub struct ChangeSet(ChangeSetMut);

impl View for ChangeSet {
    type V = ChangeSetModel;

    closed spec fn view(&self) -> ChangeSetModel {
        self.0@
    }
}

impl Clone for ChangeSet {
    fn clone(&self) -> (copy: Self)
        ensures
            copy@ == self@,
    {
        proof {
            use_type_invariant(self);
        }
        ChangeSet(self.0.clone())
    }
}

impl ChangeSet {
    #[verifier::type_invariant]
    spec fn sound(self) -> bool {
        well_formed(self.0@)
    }

    #[inline]
    pub fn len(&self) -> (n: usize)
        ensures
            n == self@.len(),
            well_formed(self@),
    {
        proof {
            use_type_invariant(self);
        }
        self.0.len()
    }

    #[inline]
    pub fn is_empty(&self) -> (empty: bool)
        ensures
            empty == (self@.len() == 0),
    {
        self.0.is_empty()
    }

    /// The change set, open to changes again.
    #[inline]
    pub fn into_mut(self) -> (change_set: ChangeSetMut)
        ensures
            change_set@ == self@,
            well_formed(change_set@),
    {
        proof {
            use_type_invariant(&self);
        }
        self.0
    }

    /// Tells whether the merge of `second` into `first` stays within 64
    /// bits, up to its end or its failure.
    pub fn merge_fits(first: &ChangeSet, second: &ChangeSet) -> (fits: bool)
        ensures
            fits == merge_change_sets_fits(first@, second@),
    {
        ChangeSetMut::merge_fits(&first.0, &second.0)
    }

    /// The change set `first` followed by the change set `second`, frozen
    /// again. Every resource of either side is in the result, and no other;
    /// a resource that only one side speaks of has in the result the changes
    /// that it has there.
    pub fn merge(first: &ChangeSet, second: &ChangeSet) -> (merged: Result<
        ChangeSet,
        ChangeSetError,
    >)
        requires
            merge_change_sets_fits(first@, second@),
        ensures
            match merge_change_sets(first@, second@) {
                Ok(change_set) => merged is Ok && merged->Ok_0@ == change_set,
                Err(e) => merged == Err::<ChangeSet, ChangeSetError>(e),
            },
            merged matches Ok(both) ==> {
                &&& well_formed(both@)
                &&& forall|p: AccessPathModel| #[trigger]
                    has_key(both@, p) <==> has_key(first@, p) || has_key(second@, p)
                &&& forall|p: AccessPathModel|
                    !has_key(second@, p) ==> #[trigger] lookup(both@, p) == lookup(first@, p)
                &&& forall|p: AccessPathModel|
                    !has_key(first@, p) ==> #[trigger] lookup(both@, p) == lookup(second@, p)
            },
    {
        proof {
            use_type_invariant(first);
            use_type_invariant(second);
        }
        match ChangeSetMut::merge(&first.0, &second.0) {
            Ok(change_set) => {
                proof {
                    lemma_merge_keeps_structure(first@, second@);
                    lemma_merge_keeps_resources(first@, second@);
                }
                change_set.freeze()
            },
            Err(e) => Err(e),
        }
    }
}

/// The merge of two change sets of sound structure has a sound structure.
pub proof fn lemma_merge_keeps_structure(first: ChangeSetModel, second: ChangeSetModel)
    requires
        well_formed(first),
        well_formed(second),
        merge_change_sets(first, second) is Ok,
    ensures
        well_formed(merge_change_sets(first, second)->Ok_0),
        structure_fault(merge_change_sets(first, second)->Ok_0) is None,
{
    let p = |fields: FieldsModel| unique_keys(fields);
    assert forall|a: FieldsModel, b: FieldsModel|
        p(a) && p(b) && (#[trigger] fields_merger()(a, b)) is Ok implies p(
        fields_merger()(a, b)->Ok_0,
    ) by {
        lemma_merge_all_keys(a, b, op_merger());
    }
    lemma_merge_all_values(first, second, fields_merger(), p);
    lemma_merge_all_keys(first, second, fields_merger());
    let r = merge_change_sets(first, second)->Ok_0;
    assert forall|i: int| 0 <= i < r.len() implies unique_keys((#[trigger] r[i]).1) by {
        assert(p(r[i].1));
    }
}

/// The merge of two change sets speaks of the resources of both and of no
/// other. A resource that `second` does not speak of keeps the changes it has
/// in `first`; one that `first` does not speak of, and `second` once, has the
/// changes it has in `second`.
pub proof fn lemma_merge_keeps_resources(first: ChangeSetModel, second: ChangeSetModel)
    requires
        merge_change_sets(first, second) is Ok,
    ensures
        ({
            let both = merge_change_sets(first, second)->Ok_0;
            &&& forall|p: AccessPathModel| #[trigger]
                has_key(both, p) <==> has_key(first, p) || has_key(second, p)
            &&& forall|p: AccessPathModel|
                !has_key(second, p) ==> #[trigger] lookup(both, p) == lookup(first, p)
            &&& forall|p: AccessPathModel|
                !has_key(first, p) && unique_keys(second) ==> #[trigger] lookup(both, p)
                    == lookup(second, p)
        }),
{
    let both = merge_change_sets(first, second)->Ok_0;
    lemma_merge_all_keys(first, second, fields_merger());
    assert forall|p: AccessPathModel| !has_key(second, p) implies #[trigger] lookup(both, p)
        == lookup(first, p) by {
        lemma_merge_all_untouched(first, second, fields_merger(), p);
    }
    assert forall|p: AccessPathModel|
        !has_key(first, p) && unique_keys(second) implies #[trigger] lookup(both, p) == lookup(
        second,
        p,
    ) by {
        if has_key(second, p) {
            lemma_has_key_first(second, p);
            let n = first_index(second, p);
            assert forall|j: int| 0 <= j < second.len() && j != n implies (#[trigger] second[j]).0
                != second[n].0 by {
                if j < n {
                    assert(second[j].0 != second[n].0);
                } else {
                    assert(second[n].0 != second[j].0);
                }
            }
            lemma_merge_all_added(first, second, fields_merger(), n);
        } else {
            assert(has_key(both, p) <==> has_key(first, p) || has_key(second, p));
        }
    }
}


impl FieldChanges {
    /// The entries, one after the other, in their order.
    #[inline]
    pub fn iter(&self) -> (iter: std::slice::Iter<'_, (Accesses, ChangeOp)>)
        ensures
            IteratorSpec::obeys_prophetic_iter_laws(&iter),
            IteratorSpec::decrease(&iter) is Some,
            IteratorSpec::initial_value_relation(&iter, &iter),
            IteratorSpec::remaining(&iter).len() == self@.len(),
            forall|i: int|
                0 <= i < self@.len() ==> ({
                    let entry = #[trigger] IteratorSpec::remaining(&iter)[i];
                    (entry.0@, entry.1@) == self@[i]
                }),
    {
        broadcast use vstd::std_specs::slice::axiom_spec_slice_iter;

        self.0.as_slice().iter()
    }
}

impl std::iter::IntoIterator for FieldChanges {
    type Item = (Accesses, ChangeOp);

    type IntoIter = std::vec::IntoIter<(Accesses, ChangeOp)>;

    fn into_iter(self) -> (iter: std::vec::IntoIter<(Accesses, ChangeOp)>)
        ensures
            IteratorSpec::obeys_prophetic_iter_laws(&iter),
            IteratorSpec::decrease(&iter) is Some,
            IteratorSpec::initial_value_relation(&iter, &iter),
            entries_model(IteratorSpec::remaining(&iter)) == self@,
    {
        broadcast use vstd::std_specs::vec::axiom_spec_into_iter;

        self.0.into_iter()
    }
}

impl<'a> IntoIterator for &'a FieldChanges {
    type Item = &'a (Accesses, ChangeOp);

    type IntoIter = std::slice::Iter<'a, (Accesses, ChangeOp)>;

    fn into_iter(self) -> (iter: std::slice::Iter<'a, (Accesses, ChangeOp)>)
        ensures
            IteratorSpec::obeys_prophetic_iter_laws(&iter),
            IteratorSpec::decrease(&iter) is Some,
            IteratorSpec::initial_value_relation(&iter, &iter),
            IteratorSpec::remaining(&iter).len() == self@.len(),
            forall|i: int|
                0 <= i < self@.len() ==> ({
                    let entry = #[trigger] IteratorSpec::remaining(&iter)[i];
                    (entry.0@, entry.1@) == self@[i]
                }),
    {
        self.iter()
    }
}

impl std::ops::Index<usize> for FieldChanges {
    type Output = (Accesses, ChangeOp);

    #[inline]
    fn index(&self, index: usize) -> (entry: &(Accesses, ChangeOp))
        ensures
            (entry.0@, entry.1@) == self@[index as int],
    {
        &self.0[index]
    }
}

impl vstd::std_specs::core::IndexSpecImpl<usize> for FieldChanges {
    open spec fn index_req(&self, index: &usize) -> bool {
        *index < self@.len()
    }
}

impl std::ops::Index<usize> for ChangeSetMut {
    type Output = (AccessPath, FieldChanges);

    #[inline]
    fn index(&self, index: usize) -> (entry: &(AccessPath, FieldChanges))
        ensures
            (entry.0@, entry.1@) == self@[index as int],
    {
        &self.change_set[index]
    }
}

impl vstd::std_specs::core::IndexSpecImpl<usize> for ChangeSetMut {
    open spec fn index_req(&self, index: &usize) -> bool {
        *index < self@.len()
    }
}

impl ChangeSet {
    /// The entries, one after the other, in their order.
    #[inline]
    pub fn iter(&self) -> (iter: std::slice::Iter<'_, (AccessPath, FieldChanges)>)
        ensures
            IteratorSpec::obeys_prophetic_iter_laws(&iter),
            IteratorSpec::decrease(&iter) is Some,
            IteratorSpec::initial_value_relation(&iter, &iter),
            IteratorSpec::remaining(&iter).len() == self@.len(),
            forall|i: int|
                0 <= i < self@.len() ==> ({
                    let entry = #[trigger] IteratorSpec::remaining(&iter)[i];
                    (entry.0@, entry.1@) == self@[i]
                }),
    {
        broadcast use vstd::std_specs::slice::axiom_spec_slice_iter;

        self.0.change_set.as_slice().iter()
    }
}

impl<'a> IntoIterator for &'a ChangeSet {
    type Item = &'a (AccessPath, FieldChanges);

    type IntoIter = std::slice::Iter<'a, (AccessPath, FieldChanges)>;

    fn into_iter(self) -> (iter: std::slice::Iter<'a, (AccessPath, FieldChanges)>)
        ensures
            IteratorSpec::obeys_prophetic_iter_laws(&iter),
            IteratorSpec::decrease(&iter) is Some,
            IteratorSpec::initial_value_relation(&iter, &iter),
            IteratorSpec::remaining(&iter).len() == self@.len(),
            forall|i: int|
                0 <= i < self@.len() ==> ({
                    let entry = #[trigger] IteratorSpec::remaining(&iter)[i];
                    (entry.0@, entry.1@) == self@[i]
                }),
    {
        self.iter()
    }
}

impl std::iter::IntoIterator for ChangeSet {
    type Item = (AccessPath, FieldChanges);

    type IntoIter = std::vec::IntoIter<(AccessPath, FieldChanges)>;

    fn into_iter(self) -> (iter: std::vec::IntoIter<(AccessPath, FieldChanges)>)
        ensures
            IteratorSpec::obeys_prophetic_iter_laws(&iter),
            IteratorSpec::decrease(&iter) is Some,
            IteratorSpec::initial_value_relation(&iter, &iter),
            resources_model(IteratorSpec::remaining(&iter)) == self@,
    {
        broadcast use vstd::std_specs::vec::axiom_spec_into_iter;

        self.0.change_set.into_iter()
    }
}


/// Changes that speak of no field twice still speak of none twice when the
/// unchanged fields are dropped.
pub proof fn lemma_without_unchanged_keeps_unique(s: FieldsModel)
    requires
        unique_keys(s),
    ensures
        unique_keys(without_unchanged(s)),
    decreases s.len(),
{
    reveal(Seq::filter);
    if s.len() > 0 {
        let rest = s.drop_last();
        assert forall|i: int, j: int| 0 <= i < j < rest.len() implies (#[trigger] rest[i]).0 != (
        #[trigger] rest[j]).0 by {
            assert(s[i].0 != s[j].0);
        }
        lemma_without_unchanged_keeps_unique(rest);
        let kept = without_unchanged(rest);
        let all = without_unchanged(s);
        if changes_field()(s.last()) {
            assert(all == kept.push(s.last()));
            assert forall|i: int, j: int| 0 <= i < j < all.len() implies (#[trigger] all[i]).0 != (
            #[trigger] all[j]).0 by {
                if j == kept.len() {
                    assert(kept.contains(kept[i]));
                    rest.lemma_filter_contains_rev(changes_field(), kept[i]);
                    let w = choose|w: int| 0 <= w < rest.len() && rest[w] == kept[i];
                    assert(s[w].0 != s[s.len() - 1].0);
                } else {
                    assert(kept[i].0 != kept[j].0);
                }
            }
        }
    }
}

} // verus!
