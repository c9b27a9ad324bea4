//! What the ledger hands back: hashes, and transactions with their proofs.

use vstd::prelude::*;
use crate::bytes::{bytes_eq, copy_bytes, word_eq, word_from_bytes, word_to_bytes};

verus! {

/// Number of bytes in a hash value.
pub const HASH_LENGTH: usize = 32;

/// A hash by which the ledger names a transaction or a state.
#[derive(Debug)]
pub struct HashValue {
    hash: [u8; 32],
}

impl View for HashValue {
    type V = Seq<u8>;

    closed spec fn view(&self) -> Seq<u8> {
        self.hash@
    }
}

impl HashValue {
    /// A hash from its 32 bytes.
    pub fn new(hash: [u8; 32]) -> (value: Self)
        ensures
            value@ == hash@,
    {
        HashValue { hash }
    }

    /// A hash from a byte string, which must hold exactly 32 bytes.
    pub fn from_slice(bytes: &Vec<u8>) -> (value: Option<Self>)
        ensures
            value is Some <==> bytes@.len() == HASH_LENGTH,
            value is Some ==> value->0@ == bytes@,
    {
        match word_from_bytes(bytes) {
            Some(word) => Some(HashValue { hash: word }),
            None => None,
        }
    }

    /// The 32 bytes of the hash.
    pub fn to_vec(&self) -> (bytes: Vec<u8>)
        ensures
            bytes@ == self@,
            bytes@.len() == HASH_LENGTH,
    {
        word_to_bytes(&self.hash)
    }
}

impl Clone for HashValue {
    fn clone(&self) -> (copy: Self)
        ensures
            copy@ == self@,
    {
        HashValue { hash: self.hash }
    }
}

impl Copy for HashValue {}

impl PartialEq for HashValue {
    fn eq(&self, other: &Self) -> (same: bool) {
        word_eq(&self.hash, &other.hash)
    }
}

impl Eq for HashValue {}

impl vstd::std_specs::cmp::PartialEqSpecImpl for HashValue {
    open spec fn obeys_eq_spec() -> bool {
        true
    }

    open spec fn eq_spec(&self, other: &Self) -> bool {
        self@ == other@
    }
}

/// A transaction as the ledger recorded it, with the proof that it did, in
/// encoded form.
#[derive(Debug)]
pub struct SignedTransactionWithProof {
    bytes: Vec<u8>,
}

impl View for SignedTransactionWithProof {
    type V = Seq<u8>;

    closed spec fn view(&self) -> Seq<u8> {
        self.bytes@
    }
}

impl SignedTransactionWithProof {
    /// The record with the encoding `bytes`.
    pub fn new(bytes: Vec<u8>) -> (record: Self)
        ensures
            record@ == bytes@,
    {
        SignedTransactionWithProof { bytes }
    }

    /// The encoding of the record.
    pub fn into_bytes(self) -> (bytes: Vec<u8>)
        ensures
            bytes@ == self@,
    {
        self.bytes
    }
}

impl Clone for SignedTransactionWithProof {
    fn clone(&self) -> (copy: Self)
        ensures
            copy@ == self@,
    {
        SignedTransactionWithProof { bytes: copy_bytes(&self.bytes) }
    }
}

impl PartialEq for SignedTransactionWithProof {
    fn eq(&self, other: &Self) -> (same: bool) {
        bytes_eq(&self.bytes, &other.bytes)
    }
}

impl Eq for SignedTransactionWithProof {}

impl vstd::std_specs::cmp::PartialEqSpecImpl for SignedTransactionWithProof {
    open spec fn obeys_eq_spec() -> bool {
        true
    }

    open spec fn eq_spec(&self, other: &Self) -> bool {
        self@ == other@
    }
}

} // verus!
