//! The requests of the channel protocol and their responses as the
//! transport carries them: addresses and hashes are plain byte strings, and
//! a part that is itself a message may be absent.

use vstd::prelude::*;

verus! {

#[derive(Clone, Debug, Default, PartialEq, Eq)]
pub struct OpenChannelRequest {
    pub remote_addr: Vec<u8>,
    pub local_amount: u64,
    pub remote_amount: u64,
}

#[derive(Clone, Debug, Default, PartialEq, Eq)]
pub struct OpenChannelResponse {}

#[derive(Clone, Debug, Default, PartialEq, Eq)]
pub struct PayRequest {
    pub remote_addr: Vec<u8>,
    pub amount: u64,
}

#[derive(Clone, Debug, Default, PartialEq, Eq)]
pub struct PayResponse {}

#[derive(Clone, Debug, Default, PartialEq, Eq)]
pub struct ConnectRequest {
    pub remote_addr: Vec<u8>,
    pub remote_ip: String,
}

#[derive(Clone, Debug, Default, PartialEq, Eq)]
pub struct ConnectResponse {}

#[derive(Clone, Debug, Default, PartialEq, Eq)]
pub struct DepositRequest {
    pub remote_addr: Vec<u8>,
    pub local_amount: u64,
    pub remote_amount: u64,
}

#[derive(Clone, Debug, Default, PartialEq, Eq)]
pub struct DepositResponse {}

#[derive(Clone, Debug, Default, PartialEq, Eq)]
pub struct WithdrawRequest {
    pub remote_addr: Vec<u8>,
    pub local_amount: u64,
    pub remote_amount: u64,
}

#[derive(Clone, Debug, Default, PartialEq, Eq)]
pub struct WithdrawResponse {}

#[derive(Clone, Debug, Default, PartialEq, Eq)]
pub struct ChannelBalanceRequest {
    pub remote_addr: Vec<u8>,
}

#[derive(Clone, Debug, Default, PartialEq, Eq)]
pub struct ChannelBalanceResponse {
    pub balance: u64,
}

/// A package of channel scripts, encoded.
#[derive(Clone, Debug, Default, PartialEq, Eq)]
pub struct ChannelScriptPackage {
    pub bytes: Vec<u8>,
}

#[derive(Clone, Debug, Default, PartialEq, Eq)]
pub struct InstallChannelScriptPackageRequest {
    pub channel_script_package: Option<ChannelScriptPackage>,
}

#[derive(Clone, Debug, Default, PartialEq, Eq)]
pub struct InstallChannelScriptPackageResponse {}

#[derive(Clone, Debug, Default, PartialEq, Eq)]
pub struct DeployModuleRequest {
    pub module_bytes: Vec<u8>,
}

/// A transaction with the proof that the ledger recorded it, encoded.
#[derive(Clone, Debug, Default, PartialEq, Eq)]
pub struct SignedTransactionWithProof {
    pub bytes: Vec<u8>,
}

#[derive(Clone, Debug, Default, PartialEq, Eq)]
pub struct DeployModuleResponse {
    pub transaction_with_proof: Option<SignedTransactionWithProof>,
}

#[derive(Clone, Debug, Default, PartialEq, Eq)]
pub struct ExecuteScriptRequest {
    pub remote_addr: Vec<u8>,
    pub package_name: String,
    pub script_name: String,
    pub args: Vec<Vec<u8>>,
}

#[derive(Clone, Debug, Default, PartialEq, Eq)]
pub struct ExecuteScriptResponse {
    pub hash_value: Vec<u8>,
}

} // verus!
