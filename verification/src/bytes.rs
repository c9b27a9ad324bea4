//! Byte-string helpers shared by the key and value types.

use vstd::prelude::*;

verus! {

/// Tells whether two byte strings hold the same bytes.
pub fn bytes_eq(a: &Vec<u8>, b: &Vec<u8>) -> (same: bool)
    ensures
        same == (a@ == b@),
{
    if a.len() != b.len() {
        return false;
    }
    let mut i: usize = 0;
    while i < a.len()
        invariant
            a.len() == b.len(),
            i <= a.len(),
            forall|j: int| 0 <= j < i ==> a@[j] == b@[j],
        decreases a.len() - i,
    {
        if a[i] != b[i] {
            return false;
        }
        i += 1;
    }
    assert(a@ =~= b@);
    true
}

/// An owned copy of a byte string.
pub fn copy_bytes(a: &Vec<u8>) -> (out: Vec<u8>)
    ensures
        out@ == a@,
{
    let mut out: Vec<u8> = Vec::new();
    let mut i: usize = 0;
    while i < a.len()
        invariant
            i <= a.len(),
            out@ == a@.take(i as int),
        decreases a.len() - i,
    {
        out.push(a[i]);
        assert(a@.take(i + 1) =~= a@.take(i as int).push(a@[i as int]));
        i += 1;
    }
    assert(a@.take(a.len() as int) =~= a@);
    out
}

/// Tells whether two 32-byte words hold the same bytes.
pub fn word_eq(a: &[u8; 32], b: &[u8; 32]) -> (same: bool)
    ensures
        same == (a@ == b@),
{
    let mut i: usize = 0;
    while i < 32
        invariant
            i <= 32,
            forall|j: int| 0 <= j < i ==> a@[j] == b@[j],
        decreases 32 - i,
    {
        if a[i] != b[i] {
            return false;
        }
        i += 1;
    }
    assert(a@ =~= b@);
    true
}

/// The 32-byte word that holds the bytes of `v`, when `v` has exactly 32.
pub fn word_from_bytes(v: &Vec<u8>) -> (out: Option<[u8; 32]>)
    ensures
        out is Some <==> v@.len() == 32,
        out is Some ==> out->0@ == v@,
{
    if v.len() != 32 {
        return None;
    }
    let mut word = [0u8; 32];
    let mut i: usize = 0;
    while i < 32
        invariant
            i <= 32,
            v@.len() == 32,
            forall|j: int| 0 <= j < i ==> word@[j] == v@[j],
        decreases 32 - i,
    {
        word[i] = v[i];
        i += 1;
    }
    assert(word@ =~= v@);
    Some(word)
}

/// The bytes of a 32-byte word as a byte string.
pub fn word_to_bytes(word: &[u8; 32]) -> (out: Vec<u8>)
    ensures
        out@ == word@,
{
    let mut out: Vec<u8> = Vec::new();
    let mut i: usize = 0;
    while i < 32
        invariant
            i <= 32,
            out@.len() == i,
            forall|j: int| 0 <= j < i ==> out@[j] == word@[j],
        decreases 32 - i,
    {
        out.push(word[i]);
        i += 1;
    }
    assert(out@ =~= word@);
    out
}

} // verus!
