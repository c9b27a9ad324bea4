//! Packages of channel scripts.

use vstd::prelude::*;
use crate::bytes::{bytes_eq, copy_bytes};

verus! {

/// A named set of scripts that the two parties of a channel may run, in
/// encoded form.
#[derive(Debug)]
pub struct ChannelScriptPackage {
    bytes: Vec<u8>,
}

impl View for ChannelScriptPackage {
    type V = Seq<u8>;

    closed spec fn view(&self) -> Seq<u8> {
        self.bytes@
    }
}

impl ChannelScriptPackage {
    /// The package with the encoding `bytes`.
    pub fn new(bytes: Vec<u8>) -> (package: Self)
        ensures
            package@ == bytes@,
    {
        ChannelScriptPackage { bytes }
    }

    /// The encoding of the package.
    pub fn into_bytes(self) -> (bytes: Vec<u8>)
        ensures
            bytes@ == self@,
    {
        self.bytes
    }
}

impl Clone for ChannelScriptPackage {
    fn clone(&self) -> (copy: Self)
        ensures
            copy@ == self@,
    {
        ChannelScriptPackage { bytes: copy_bytes(&self.bytes) }
    }
}

impl PartialEq for ChannelScriptPackage {
    fn eq(&self, other: &Self) -> (same: bool) {
        bytes_eq(&self.bytes, &other.bytes)
    }
}

impl Eq for ChannelScriptPackage {}

impl vstd::std_specs::cmp::PartialEqSpecImpl for ChannelScriptPackage {
    open spec fn obeys_eq_spec() -> bool {
        true
    }

    open spec fn eq_spec(&self, other: &Self) -> bool {
        self@ == other@
    }
}

} // verus!
