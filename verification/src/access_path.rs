//! Addresses and selectors: the keys under which state deltas are filed.

use vstd::prelude::*;
use crate::bytes::{bytes_eq, copy_bytes, word_eq, word_from_bytes, word_to_bytes};

verus! {

/// Number of bytes in an account address.
pub const ADDRESS_LENGTH: usize = 32;

/// The address of an account on the ledger.
#[derive(Debug)]
pub struct AccountAddress {
    bytes: [u8; 32],
}

impl View for AccountAddress {
    type V = Seq<u8>;

    closed spec fn view(&self) -> Seq<u8> {
        self.bytes@
    }
}

impl AccountAddress {
    /// An address from its 32 bytes.
    pub fn new(bytes: [u8; 32]) -> (address: Self)
        ensures
            address@ == bytes@,
    {
        AccountAddress { bytes }
    }

    /// An address from a byte string, which must hold exactly 32 bytes.
    pub fn from_bytes(bytes: &Vec<u8>) -> (address: Option<Self>)
        ensures
            address is Some <==> bytes@.len() == ADDRESS_LENGTH,
            address is Some ==> address->0@ == bytes@,
    {
        match word_from_bytes(bytes) {
            Some(word) => Some(AccountAddress { bytes: word }),
            None => None,
        }
    }

    /// The 32 bytes of the address.
    pub fn to_vec(&self) -> (bytes: Vec<u8>)
        ensures
            bytes@ == self@,
    {
        word_to_bytes(&self.bytes)
    }

    /// Every address is 32 bytes long.
    pub proof fn lemma_length(&self)
        ensures
            self@.len() == ADDRESS_LENGTH,
    {
    }
}

impl Clone for AccountAddress {
    fn clone(&self) -> (copy: Self)
        ensures
            copy@ == self@,
    {
        AccountAddress { bytes: self.bytes }
    }
}

impl Copy for AccountAddress {}

impl PartialEq for AccountAddress {
    fn eq(&self, other: &Self) -> (same: bool) {
        word_eq(&self.bytes, &other.bytes)
    }
}

impl Eq for AccountAddress {}

impl vstd::std_specs::cmp::PartialEqSpecImpl for AccountAddress {
    open spec fn obeys_eq_spec() -> bool {
        true
    }

    open spec fn eq_spec(&self, other: &Self) -> bool {
        self@ == other@
    }
}

/// The address of a resource: the account that holds it and the tag that
/// names it within the account.
#[derive(Debug)]
pub struct AccessPath {
    pub address: AccountAddress,
    pub path: Vec<u8>,
}

/// What an [`AccessPath`] denotes.
pub struct AccessPathModel {
    pub address: Seq<u8>,
    pub path: Seq<u8>,
}

impl View for AccessPath {
    type V = AccessPathModel;

    open spec fn view(&self) -> AccessPathModel {
        AccessPathModel { address: self.address@, path: self.path@ }
    }
}

impl AccessPath {
    /// The address of the resource tagged `path` in account `address`.
    pub fn new(address: AccountAddress, path: Vec<u8>) -> (access_path: Self)
        ensures
            access_path@ == (AccessPathModel { address: address@, path: path@ }),
    {
        AccessPath { address, path }
    }
}

impl Clone for AccessPath {
    fn clone(&self) -> (copy: Self)
        ensures
            copy@ == self@,
    {
        AccessPath { address: self.address, path: copy_bytes(&self.path) }
    }
}

impl PartialEq for AccessPath {
    fn eq(&self, other: &Self) -> (same: bool) {
        let same = self.address == other.address && bytes_eq(&self.path, &other.path);
        proof {
            if self.address@ == other.address@ && self.path@ == other.path@ {
                assert(self@ == other@);
            }
        }
        same
    }
}

impl Eq for AccessPath {}

impl vstd::std_specs::cmp::PartialEqSpecImpl for AccessPath {
    open spec fn obeys_eq_spec() -> bool {
        true
    }

    open spec fn eq_spec(&self, other: &Self) -> bool {
        self@ == other@
    }
}

/// One step of a selector: into a named field, or to an index of a vector.
#[derive(Debug)]
pub enum Access {
    Field(Vec<u8>),
    Index(u64),
}

/// What an [`Access`] denotes.
pub enum AccessModel {
    Field(Seq<u8>),
    Index(u64),
}

impl View for Access {
    type V = AccessModel;

    open spec fn view(&self) -> AccessModel {
        match self {
            Access::Field(name) => AccessModel::Field(name@),
            Access::Index(index) => AccessModel::Index(*index),
        }
    }
}

impl Clone for Access {
    fn clone(&self) -> (copy: Self)
        ensures
            copy@ == self@,
    {
        match self {
            Access::Field(name) => Access::Field(copy_bytes(name)),
            Access::Index(index) => Access::Index(*index),
        }
    }
}

impl PartialEq for Access {
    fn eq(&self, other: &Self) -> (same: bool) {
        match (self, other) {
            (Access::Field(a), Access::Field(b)) => bytes_eq(a, b),
            (Access::Index(a), Access::Index(b)) => *a == *b,
            _ => false,
        }
    }
}

impl Eq for Access {}

impl vstd::std_specs::cmp::PartialEqSpecImpl for Access {
    open spec fn obeys_eq_spec() -> bool {
        true
    }

    open spec fn eq_spec(&self, other: &Self) -> bool {
        self@ == other@
    }
}

/// A selector into a resource: the path of steps from the resource down to
/// one of its fields.
#[derive(Debug)]
pub struct Accesses {
    steps: Vec<Access>,
}

impl View for Accesses {
    type V = Seq<AccessModel>;

    closed spec fn view(&self) -> Seq<AccessModel> {
        Seq::new(self.steps@.len(), |i: int| self.steps@[i]@)
    }
}

impl Accesses {
    /// The selector of the resource itself.
    pub fn empty() -> (accesses: Self)
        ensures
            accesses@ == Seq::<AccessModel>::empty(),
    {
        let accesses = Accesses { steps: Vec::new() };
        assert(accesses@ =~= Seq::<AccessModel>::empty());
        accesses
    }

    /// The selector of the field `name` of the resource.
    pub fn new(name: Vec<u8>) -> (accesses: Self)
        ensures
            accesses@ == seq![AccessModel::Field(name@)],
    {
        let mut steps: Vec<Access> = Vec::new();
        steps.push(Access::Field(name));
        let accesses = Accesses { steps };
        assert(accesses@ =~= seq![AccessModel::Field(name@)]);
        accesses
    }

    /// Extends the selector by a step into the field `name`.
    pub fn add_field_to_back(&mut self, name: Vec<u8>)
        ensures
            final(self)@ == old(self)@.push(AccessModel::Field(name@)),
    {
        self.steps.push(Access::Field(name));
        assert(self@ =~= old(self)@.push(AccessModel::Field(name@)));
    }

    /// Extends the selector by a step to the index `index`.
    pub fn add_index_to_back(&mut self, index: u64)
        ensures
            final(self)@ == old(self)@.push(AccessModel::Index(index)),
    {
        self.steps.push(Access::Index(index));
        assert(self@ =~= old(self)@.push(AccessModel::Index(index)));
    }

    /// Number of steps in the selector.
    pub fn len(&self) -> (n: usize)
        ensures
            n == self@.len(),
    {
        self.steps.len()
    }
}

impl Clone for Accesses {
    fn clone(&self) -> (copy: Self)
        ensures
            copy@ == self@,
    {
        let mut steps: Vec<Access> = Vec::new();
        let mut i: usize = 0;
        while i < self.steps.len()
            invariant
                i <= self.steps.len(),
                steps@.len() == i,
                forall|j: int| 0 <= j < i ==> steps@[j]@ == self.steps@[j]@,
            decreases self.steps.len() - i,
        {
            steps.push(self.steps[i].clone());
            i += 1;
        }
        let copy = Accesses { steps };
        assert(copy@ =~= self@);
        copy
    }
}

impl PartialEq for Accesses {
    fn eq(&self, other: &Self) -> (same: bool) {
        if self.steps.len() != other.steps.len() {
            assert(self@.len() != other@.len());
            return false;
        }
        let mut i: usize = 0;
        while i < self.steps.len()
            invariant
                self.steps.len() == other.steps.len(),
                i <= self.steps.len(),
                forall|j: int| 0 <= j < i ==> self.steps@[j]@ == other.steps@[j]@,
            decreases self.steps.len() - i,
        {
            if !(self.steps[i] == other.steps[i]) {
                assert(self@[i as int] != other@[i as int]);
                return false;
            }
            i += 1;
        }
        assert(self@ =~= other@);
        true
    }
}

impl Eq for Accesses {}

impl vstd::std_specs::cmp::PartialEqSpecImpl for Accesses {
    open spec fn obeys_eq_spec() -> bool {
        true
    }

    open spec fn eq_spec(&self, other: &Self) -> bool {
        self@ == other@
    }
}

} // verus!
