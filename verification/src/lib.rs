//! Off-chain payment channels between two parties, on top of a ledger
//! that both can reach.
//!
//! The crate has two halves. One is the merge of state deltas: a change to
//! one field ([`change_set::ChangeOp`]), the changes to the fields of one
//! resource ([`change_set::FieldChanges`]) and the changes to a set of
//! resources ([`change_set::ChangeSet`]), by which two views of the same
//! state, computed apart, become one; its laws are in [`laws`]. The other is
//! the protocol of a channel: the ledger that each party keeps of it
//! ([`channel::Channel`]), the wallet that holds the channels of one account
//! ([`wallet::Wallet`]), the requests that drive them ([`node`]) and the
//! envelope they travel in ([`message`]).

pub mod access_path;
pub mod block_loop;
pub mod bytes;
pub mod change_set;
pub mod channel;
pub mod keyed;
pub mod laws;
pub mod ledger;
pub mod message;
pub mod node;
pub mod proto;
pub mod script_package;
pub mod value;
pub mod wallet;
