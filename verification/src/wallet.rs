//! A wallet: one account, its funds on the ledger of the chain, and its
//! channels, one for each counterparty. It makes the transactions of its
//! channels, confirms those of its counterparties, and applies both.

use vstd::prelude::*;
use crate::access_path::AccountAddress;
use crate::channel::{
    apply_model, is_travel, own_amount, propose_model, unopened, verify_model, Channel,
    ChannelError, ChannelOp, ChannelRequest, LedgerModel, Role,
};
use crate::keyed::{
    first_index, has_key, is_first, lemma_first_index, lemma_has_key_first, lookup,
};

verus! {

/// A transaction of a channel on its way between the two parties.
#[derive(Clone, Copy, Debug, PartialEq, Eq)]
pub struct ChannelTransaction {
    /// The party that proposed the transaction.
    pub proposer: AccountAddress,
    /// The party it was proposed to.
    pub receiver: AccountAddress,
    /// What the transaction does, and its place in the sequence.
    pub request: ChannelRequest,
    /// Whether the receiver has confirmed it.
    pub confirmed: bool,
}

/// What a [`ChannelTransaction`] denotes.
pub struct TransactionModel {
    pub proposer: Seq<u8>,
    pub receiver: Seq<u8>,
    pub request: ChannelRequest,
    pub confirmed: bool,
}

impl View for ChannelTransaction {
    type V = TransactionModel;

    open spec fn view(&self) -> TransactionModel {
        TransactionModel {
            proposer: self.proposer@,
            receiver: self.receiver@,
            request: self.request,
            confirmed: self.confirmed,
        }
    }
}

impl ChannelTransaction {
    /// Tells whether the transaction has to be settled on the ledger of the
    /// chain: opening, deposit and withdrawal have to, a transfer has not.
    pub fn is_travel_txn(&self) -> (travel: bool)
        ensures
            travel == is_travel(self@.request.op),
    {
        self.request.op.is_travel()
    }
}

/// What a wallet holds: its account, the funds of the account on the
/// ledger of the chain, and the ledger of its channel with each counterparty.
pub struct WalletModel {
    pub account: Seq<u8>,
    pub balance: u64,
    pub channels: Seq<(Seq<u8>, LedgerModel)>,
}

/// The ledger of the channel with `participant`: that of a channel never
/// opened where the wallet has none with it.
pub open spec fn ledger_of(w: WalletModel, participant: Seq<u8>) -> LedgerModel {
    match lookup(w.channels, participant) {
        Some(ledger) => ledger,
        None => unopened(),
    }
}

/// The channels `channels` with `ledger` as that of the channel with
/// `participant`.
pub open spec fn with_ledger(
    channels: Seq<(Seq<u8>, LedgerModel)>,
    participant: Seq<u8>,
    ledger: LedgerModel,
) -> Seq<(Seq<u8>, LedgerModel)> {
    if has_key(channels, participant) {
        channels.update(first_index(channels, participant), (participant, ledger))
    } else {
        channels.push((participant, ledger))
    }
}

/// The funds of an account on the ledger of the chain after a transaction
/// of one of its channels has been settled there: what the account puts into
/// the channel leaves them, what it takes out comes back, and the party that
/// proposed the transaction pays `gas` for settling it. A transfer is not
/// settled and leaves the funds as they are.
pub open spec fn funds_after(balance: u64, role: Role, op: ChannelOp, gas: u64) -> Result<
    u64,
    ChannelError,
> {
    let own = own_amount(op, role) as int;
    let cost = if role is Proposer {
        gas as int
    } else {
        0
    };
    let left = match op {
        ChannelOp::Open { .. } => balance - own - cost,
        ChannelOp::Deposit { .. } => balance - own - cost,
        ChannelOp::Withdraw { .. } => balance + own - cost,
        ChannelOp::Transfer { .. } => balance as int,
    };
    if left < 0 {
        Err(ChannelError::InsufficientBalance)
    } else if left > u64::MAX {
        Err(ChannelError::Overflow)
    } else {
        Ok(left as u64)
    }
}

/// The wallet has no channel that `op` could be a transaction of: the
/// counterparty is the wallet's own account, or the wallet has no channel
/// with it and `op` does not open one.
pub open spec fn no_channel_for(w: WalletModel, participant: Seq<u8>, op: ChannelOp) -> bool {
    participant == w.account || (!(op is Open) && !has_key(w.channels, participant))
}

/// What proposing `op` to `receiver` gives: the transaction to send, and
/// the wallet that waits for it.
pub open spec fn wallet_propose(w: WalletModel, receiver: Seq<u8>, op: ChannelOp) -> Result<
    (WalletModel, TransactionModel),
    ChannelError,
> {
    let ledger = ledger_of(w, receiver);
    if no_channel_for(w, receiver, op) {
        Err(ChannelError::WrongCounterparty)
    } else {
        match propose_model(ledger, op) {
            Err(e) => Err(e),
            Ok((after, request)) => if ledger.pending is None && funds_after(
                w.balance,
                Role::Proposer,
                op,
                0,
            ) is Err {
                Err(funds_after(w.balance, Role::Proposer, op, 0)->Err_0)
            } else {
                Ok(
                    (
                        WalletModel { channels: with_ledger(w.channels, receiver, after), ..w },
                        TransactionModel {
                            proposer: w.account,
                            receiver,
                            request,
                            confirmed: false,
                        },
                    ),
                )
            },
        }
    }
}

/// Whether the wallet confirms the transaction `t` of a counterparty: it
/// does where `t` is addressed to it, the ledger of its channel with the
/// proposer confirms the request, and its funds cover its side of it. A
/// transaction that it applied last is confirmed without a look at the funds.
pub open spec fn wallet_verify(w: WalletModel, t: TransactionModel) -> Result<(), ChannelError> {
    let ledger = ledger_of(w, t.proposer);
    if t.receiver != w.account || no_channel_for(w, t.proposer, t.request.op) {
        Err(ChannelError::WrongCounterparty)
    } else {
        match verify_model(ledger, t.request) {
            Err(e) => Err(e),
            Ok(()) => if ledger.last_applied == Some((Role::Receiver, t.request)) {
                Ok(())
            } else {
                match funds_after(w.balance, Role::Receiver, t.request.op, 0) {
                    Err(e) => Err(e),
                    Ok(_) => Ok(()),
                }
            },
        }
    }
}

/// The part that the wallet has in the transaction `t` of its channel with
/// `participant`, if `t` is one.
pub open spec fn role_in(w: WalletModel, participant: Seq<u8>, t: TransactionModel) -> Option<
    Role,
> {
    if participant == w.account {
        None
    } else if t.proposer == w.account && t.receiver == participant {
        Some(Role::Proposer)
    } else if t.receiver == w.account && t.proposer == participant {
        Some(Role::Receiver)
    } else {
        None
    }
}

/// What applying the transaction `t` of the channel with `participant`
/// gives: the wallet afterwards, and the gas it paid. Gas is paid by the
/// proposer of a transaction that is settled on the ledger of the chain, when
/// it is applied the first time.
pub open spec fn wallet_apply(
    w: WalletModel,
    participant: Seq<u8>,
    t: TransactionModel,
    gas: u64,
) -> Result<(WalletModel, u64), ChannelError> {
    let ledger = ledger_of(w, participant);
    match role_in(w, participant, t) {
        None => Err(ChannelError::WrongCounterparty),
        Some(role) => if no_channel_for(w, participant, t.request.op) {
            Err(ChannelError::WrongCounterparty)
        } else if !t.confirmed {
            Err(ChannelError::NotConfirmed)
        } else {
            match apply_model(ledger, role, t.request) {
                Err(e) => Err(e),
                Ok((after, fresh)) => if !fresh {
                    Ok((w, 0))
                } else {
                    let paid = if is_travel(t.request.op) {
                        gas
                    } else {
                        0
                    };
                    match funds_after(w.balance, role, t.request.op, paid) {
                        Err(e) => Err(e),
                        Ok(left) => Ok(
                            (
                                WalletModel {
                                    balance: left,
                                    channels: with_ledger(w.channels, participant, after),
                                    ..w
                                },
                                if role is Proposer {
                                    paid
                                } else {
                                    0
                                },
                            ),
                        ),
                    }
                },
            }
        },
    }
}

/// What the channels `s` denote.
pub open spec fn channels_model(s: Seq<(AccountAddress, Channel)>) -> Seq<(Seq<u8>, LedgerModel)> {
    Seq::new(s.len(), |i: int| (s[i].0@, s[i].1@))
}

/// The funds of an account on the ledger of the chain after `op` has been
/// settled; fails where they do not cover it, or pass `u64::MAX`.
pub fn settle_funds(balance: u64, role: Role, op: &ChannelOp, gas: u64) -> (left: Result<
    u64,
    ChannelError,
>)
    ensures
        left == funds_after(balance, role, *op, gas),
{
    let own = op.own_amount(role);
    let cost = match role {
        Role::Proposer => gas,
        Role::Receiver => 0,
    };
    match op {
        ChannelOp::Open { .. } | ChannelOp::Deposit { .. } => {
            if own > balance || cost > balance - own {
                Err(ChannelError::InsufficientBalance)
            } else {
                Ok(balance - own - cost)
            }
        },
        ChannelOp::Withdraw { .. } => {
            if cost >= own {
                if cost - own > balance {
                    Err(ChannelError::InsufficientBalance)
                } else {
                    Ok(balance - (cost - own))
                }
            } else {
                if own - cost > u64::MAX - balance {
                    Err(ChannelError::Overflow)
                } else {
                    Ok(balance + (own - cost))
                }
            }
        },
        ChannelOp::Transfer { .. } => Ok(balance),
    }
}

/// One account with its funds and its channels.
#[derive(Clone, Debug)]
pub struct Wallet {
    account: AccountAddress,
    balance: u64,
    channels: Vec<(AccountAddress, Channel)>,
}

impl View for Wallet {
    type V = WalletModel;

    closed spec fn view(&self) -> WalletModel {
        WalletModel {
            account: self.account@,
            balance: self.balance,
            channels: channels_model(self.channels@),
        }
    }
}

impl Wallet {
    /// The wallet of `account`, which has the funds `balance` on the ledger
    /// of the chain and no channel yet.
    pub fn new(account: AccountAddress, balance: u64) -> (wallet: Self)
        ensures
            wallet@ == (WalletModel {
                account: account@,
                balance,
                channels: Seq::<(Seq<u8>, LedgerModel)>::empty(),
            }),
    {
        let wallet = Wallet { account, balance, channels: Vec::new() };
        assert(channels_model(wallet.channels@) =~= Seq::<(Seq<u8>, LedgerModel)>::empty());
        wallet
    }

    pub fn account(&self) -> (account: AccountAddress)
        ensures
            account@ == self@.account,
    {
        self.account
    }

    /// The funds of the account on the ledger of the chain.
    pub fn balance(&self) -> (balance: u64)
        ensures
            balance == self@.balance,
    {
        self.balance
    }

    /// The place of the channel with `participant` among the channels.
    fn position(&self, participant: &AccountAddress) -> (place: Option<usize>)
        ensures
            match place {
                Some(i) => is_first(self@.channels, participant@, i as int) && i
                    < self.channels@.len() && first_index(self@.channels, participant@) == i
                    && has_key(self@.channels, participant@),
                None => !has_key(self@.channels, participant@),
            },
    {
        let mut i: usize = 0;
        while i < self.channels.len()
            invariant
                i <= self.channels.len(),
                forall|j: int| 0 <= j < i ==> (#[trigger] self@.channels[j]).0 != participant@,
            decreases self.channels.len() - i,
        {
            if self.channels[i].0 == *participant {
                proof {
                    lemma_first_index(self@.channels, participant@, i as int);
                }
                return Some(i);
            }
            i += 1;
        }
        None
    }

    /// The ledger of the channel with `participant`: that of a channel never
    /// opened where the wallet has none with it.
    pub fn channel(&self, participant: &AccountAddress) -> (channel: Channel)
        ensures
            channel@ == ledger_of(self@, participant@),
    {
        match self.position(participant) {
            Some(i) => self.channels[i].1,
            None => Channel::new(),
        }
    }

    /// Puts `channel` in the place of the ledger of the channel with
    /// `participant`.
    fn set_channel(&mut self, participant: AccountAddress, channel: Channel)
        ensures
            final(self)@ == (WalletModel {
                channels: with_ledger(old(self)@.channels, participant@, channel@),
                ..old(self)@
            }),
    {
        match self.position(&participant) {
            Some(i) => {
                self.channels[i] = (participant, channel);
                assert(channels_model(self.channels@) =~= with_ledger(
                    old(self)@.channels,
                    participant@,
                    channel@,
                ));
            },
            None => {
                self.channels.push((participant, channel));
                assert(channels_model(self.channels@) =~= with_ledger(
                    old(self)@.channels,
                    participant@,
                    channel@,
                ));
            },
        }
    }

    /// Tells whether the wallet has no channel that `op` could be a
    /// transaction of.
    fn has_no_channel_for(&self, participant: &AccountAddress, op: &ChannelOp) -> (none: bool)
        ensures
            none == no_channel_for(self@, participant@, *op),
    {
        if *participant == self.account {
            return true;
        }
        let opens = match op {
            ChannelOp::Open { .. } => true,
            _ => false,
        };
        !opens && self.position(participant).is_none()
    }

    /// Proposes `op` as the next transaction of the channel with `receiver`.
    pub fn propose(&mut self, receiver: AccountAddress, op: ChannelOp) -> (made: Result<
        ChannelTransaction,
        ChannelError,
    >)
        ensures
            match wallet_propose(old(self)@, receiver@, op) {
                Ok((after, t)) => made is Ok && made->Ok_0@ == t && final(self)@ == after,
                Err(e) => made == Err::<ChannelTransaction, ChannelError>(e) && final(self)@
                    == old(self)@,
            },
    {
        if self.has_no_channel_for(&receiver, &op) {
            return Err(ChannelError::WrongCounterparty);
        }
        let mut channel = self.channel(&receiver);
        let waiting = channel.pending().is_some();
        match channel.propose(op) {
            Err(e) => Err(e),
            Ok(request) => {
                if !waiting {
                    match settle_funds(self.balance, Role::Proposer, &op, 0) {
                        Err(e) => {
                            return Err(e);
                        },
                        Ok(_) => {},
                    }
                }
                let account = self.account;
                self.set_channel(receiver, channel);
                Ok(ChannelTransaction { proposer: account, receiver, request, confirmed: false })
            },
        }
    }

    /// Proposes to open a channel with `receiver`, each side putting in its
    /// amount.
    pub fn open(&mut self, receiver: AccountAddress, local_amount: u64, remote_amount: u64) -> (made:
        Result<ChannelTransaction, ChannelError>)
        ensures
            match wallet_propose(
                old(self)@,
                receiver@,
                ChannelOp::Open { local_amount, remote_amount },
            ) {
                Ok((after, t)) => made is Ok && made->Ok_0@ == t && final(self)@ == after,
                Err(e) => made == Err::<ChannelTransaction, ChannelError>(e) && final(self)@
                    == old(self)@,
            },
    {
        self.propose(receiver, ChannelOp::Open { local_amount, remote_amount })
    }

    /// Proposes that each side put its amount into the channel with
    /// `receiver`.
    pub fn deposit(&mut self, receiver: AccountAddress, local_amount: u64, remote_amount: u64) -> (made:
        Result<ChannelTransaction, ChannelError>)
        ensures
            match wallet_propose(
                old(self)@,
                receiver@,
                ChannelOp::Deposit { local_amount, remote_amount },
            ) {
                Ok((after, t)) => made is Ok && made->Ok_0@ == t && final(self)@ == after,
                Err(e) => made == Err::<ChannelTransaction, ChannelError>(e) && final(self)@
                    == old(self)@,
            },
    {
        self.propose(receiver, ChannelOp::Deposit { local_amount, remote_amount })
    }

    /// Proposes that each side take its amount out of the channel with
    /// `receiver`.
    pub fn withdraw(&mut self, receiver: AccountAddress, local_amount: u64, remote_amount: u64) -> (made:
        Result<ChannelTransaction, ChannelError>)
        ensures
            match wallet_propose(
                old(self)@,
                receiver@,
                ChannelOp::Withdraw { local_amount, remote_amount },
            ) {
                Ok((after, t)) => made is Ok && made->Ok_0@ == t && final(self)@ == after,
                Err(e) => made == Err::<ChannelTransaction, ChannelError>(e) && final(self)@
                    == old(self)@,
            },
    {
        self.propose(receiver, ChannelOp::Withdraw { local_amount, remote_amount })
    }

    /// Proposes to pay `amount` to `receiver` within the channel with it.
    pub fn transfer(&mut self, receiver: AccountAddress, amount: u64) -> (made: Result<
        ChannelTransaction,
        ChannelError,
    >)
        ensures
            match wallet_propose(old(self)@, receiver@, ChannelOp::Transfer { amount }) {
                Ok((after, t)) => made is Ok && made->Ok_0@ == t && final(self)@ == after,
                Err(e) => made == Err::<ChannelTransaction, ChannelError>(e) && final(self)@
                    == old(self)@,
            },
    {
        self.propose(receiver, ChannelOp::Transfer { amount })
    }

    /// Checks the transaction `txn` of a counterparty against the channel
    /// with it and the funds of the account, and gives it back confirmed. The
    /// wallet stays as it is. A transaction that comes again gets the same
    /// answer, also after the wallet has applied it.
    pub fn verify_txn(&self, txn: &ChannelTransaction) -> (confirmed: Result<
        ChannelTransaction,
        ChannelError,
    >)
        ensures
            match wallet_verify(self@, txn@) {
                Ok(()) => confirmed is Ok && confirmed->Ok_0@ == (TransactionModel {
                    confirmed: true,
                    ..txn@
                }),
                Err(e) => confirmed == Err::<ChannelTransaction, ChannelError>(e),
            },
    {
        if !(txn.receiver == self.account) || self.has_no_channel_for(
            &txn.proposer,
            &txn.request.op,
        ) {
            return Err(ChannelError::WrongCounterparty);
        }
        let channel = self.channel(&txn.proposer);
        if !channel.was_applied_last(Role::Receiver, &txn.request) {
            match channel.admits(Role::Receiver, &txn.request) {
                Err(e) => {
                    return Err(e);
                },
                Ok(()) => {},
            }
            match settle_funds(self.balance, Role::Receiver, &txn.request.op, 0) {
                Err(e) => {
                    return Err(e);
                },
                Ok(_) => {},
            }
        }
        Ok(
            ChannelTransaction {
                proposer: txn.proposer,
                receiver: txn.receiver,
                request: txn.request,
                confirmed: true,
            },
        )
    }

    /// The part that the wallet has in `txn` as a transaction of its
    /// channel with `participant`.
    fn role_in(&self, participant: &AccountAddress, txn: &ChannelTransaction) -> (role: Option<
        Role,
    >)
        ensures
            role == role_in(self@, participant@, txn@),
    {
        if *participant == self.account {
            None
        } else if txn.proposer == self.account && txn.receiver == *participant {
            Some(Role::Proposer)
        } else if txn.receiver == self.account && txn.proposer == *participant {
            Some(Role::Receiver)
        } else {
            None
        }
    }

    /// Applies the confirmed transaction `txn` of the channel with
    /// `participant`, and gives the gas that the wallet paid for it. `gas_used`
    /// is what the ledger of the chain took for settling the transaction; the
    /// wallet pays it where it proposed the transaction and the transaction
    /// has to be settled. A transaction that was applied last is not applied
    /// again. On a failure the wallet stays as it is.
    pub fn apply_txn(
        &mut self,
        participant: AccountAddress,
        txn: &ChannelTransaction,
        gas_used: u64,
    ) -> (paid: Result<u64, ChannelError>)
        ensures
            match wallet_apply(old(self)@, participant@, txn@, gas_used) {
                Ok((after, gas)) => paid == Ok::<u64, ChannelError>(gas) && final(self)@
                    == after,
                Err(e) => paid == Err::<u64, ChannelError>(e) && final(self)@ == old(self)@,
            },
    {
        let role = match self.role_in(&participant, txn) {
            Some(role) => role,
            None => {
                return Err(ChannelError::WrongCounterparty);
            },
        };
        if self.has_no_channel_for(&participant, &txn.request.op) {
            return Err(ChannelError::WrongCounterparty);
        }
        if !txn.confirmed {
            return Err(ChannelError::NotConfirmed);
        }
        let mut channel = self.channel(&participant);
        match channel.apply(role, &txn.request) {
            Err(e) => Err(e),
            Ok(false) => Ok(0),
            Ok(true) => {
                let gas = if txn.request.op.is_travel() {
                    gas_used
                } else {
                    0
                };
                match settle_funds(self.balance, role, &txn.request.op, gas) {
                    Err(e) => Err(e),
                    Ok(left) => {
                        self.balance = left;
                        self.set_channel(participant, channel);
                        match role {
                            Role::Proposer => Ok(gas),
                            Role::Receiver => Ok(0),
                        }
                    },
                }
            },
        }
    }

    /// The balance of the account in its channel with `participant`.
    pub fn channel_balance(&self, participant: AccountAddress) -> (balance: Result<
        u64,
        ChannelError,
    >)
        ensures
            match lookup(self@.channels, participant@) {
                Some(ledger) => balance == Ok::<u64, ChannelError>(ledger.local_balance),
                None => balance == Err::<u64, ChannelError>(ChannelError::WrongCounterparty),
            },
    {
        match self.position(&participant) {
            Some(i) => Ok(self.channels[i].1.local_balance()),
            None => Err(ChannelError::WrongCounterparty),
        }
    }

    /// The transaction that the wallet proposed to `participant` and waits
    /// to see applied, if there is one.
    pub fn get_pending_txn_request(&self, participant: AccountAddress) -> (waiting: Option<
        ChannelTransaction,
    >)
        ensures
            match ledger_of(self@, participant@).pending {
                Some(request) => waiting is Some && waiting->0@ == (TransactionModel {
                    proposer: self@.account,
                    receiver: participant@,
                    request,
                    confirmed: false,
                }),
                None => waiting is None,
            },
    {
        match self.channel(&participant).pending() {
            Some(request) => Some(
                ChannelTransaction {
                    proposer: self.account,
                    receiver: participant,
                    request,
                    confirmed: false,
                },
            ),
            None => None,
        }
    }

    /// Gives up the transaction that the wallet waits to see applied in its
    /// channel with `participant`, as when the ledger of the chain refused to
    /// settle it. Nothing else changes.
    pub fn abandon(&mut self, participant: AccountAddress)
        ensures
            has_key(old(self)@.channels, participant@) ==> final(self)@ == (WalletModel {
                channels: with_ledger(
                    old(self)@.channels,
                    participant@,
                    LedgerModel { pending: None, ..ledger_of(old(self)@, participant@) },
                ),
                ..old(self)@
            }),
            !has_key(old(self)@.channels, participant@) ==> final(self)@ == old(self)@,
    {
        if self.position(&participant).is_some() {
            let mut channel = self.channel(&participant);
            channel.abandon();
            self.set_channel(participant, channel);
        }
    }
}


/// The ledger put in for a counterparty is the ledger found for it.
pub proof fn lemma_with_ledger(
    channels: Seq<(Seq<u8>, LedgerModel)>,
    participant: Seq<u8>,
    ledger: LedgerModel,
)
    ensures
        has_key(with_ledger(channels, participant, ledger), participant),
        lookup(with_ledger(channels, participant, ledger), participant) == Some(ledger),
{
    let after = with_ledger(channels, participant, ledger);
    if has_key(channels, participant) {
        lemma_has_key_first(channels, participant);
        let i = first_index(channels, participant);
        assert(after[i].0 == participant);
        assert forall|j: int| 0 <= j < i implies (#[trigger] after[j]).0 != participant by {
            assert(channels[j].0 != participant);
        }
        lemma_first_index(after, participant, i);
    } else {
        let i = channels.len() as int;
        assert(after[i].0 == participant);
        assert forall|j: int| 0 <= j < i implies (#[trigger] after[j]).0 != participant by {
            assert(channels[j].0 != participant);
        }
        lemma_first_index(after, participant, i);
    }
}

/// A transaction that a wallet has applied is not applied a second time:
/// applying it again succeeds, costs no gas, and leaves the wallet, its funds
/// and the balances of its channels, as the first time left them.
pub proof fn lemma_wallet_apply_is_idempotent(
    w: WalletModel,
    participant: Seq<u8>,
    t: TransactionModel,
    gas: u64,
    gas_again: u64,
)
    requires
        wallet_apply(w, participant, t, gas) is Ok,
    ensures
        wallet_apply(wallet_apply(w, participant, t, gas)->Ok_0.0, participant, t, gas_again)
            == Ok::<(WalletModel, u64), ChannelError>(
            (wallet_apply(w, participant, t, gas)->Ok_0.0, 0),
        ),
{
    let ledger = ledger_of(w, participant);
    let role = role_in(w, participant, t)->0;
    let (after, fresh) = apply_model(ledger, role, t.request)->Ok_0;
    if fresh {
        lemma_with_ledger(w.channels, participant, after);
    }
}

/// A transaction that a wallet confirmed is confirmed again when it comes
/// a second time, with the same answer, also after the wallet has applied it.
pub proof fn lemma_wallet_verify_again(w: WalletModel, t: TransactionModel, gas: u64)
    requires
        wallet_verify(w, t) is Ok,
    ensures
        ({
            let confirmed = TransactionModel { confirmed: true, ..t };
            &&& wallet_apply(w, t.proposer, confirmed, gas) is Ok
            &&& wallet_verify(wallet_apply(w, t.proposer, confirmed, gas)->Ok_0.0, t) is Ok
        }),
{
    let ledger = ledger_of(w, t.proposer);
    let confirmed = TransactionModel { confirmed: true, ..t };
    let (after, fresh) = apply_model(ledger, Role::Receiver, t.request)->Ok_0;
    if fresh {
        lemma_with_ledger(w.channels, t.proposer, after);
    }
}

/// A transfer that a wallet applies leaves the funds of its account on the
/// ledger of the chain as they are, and costs no gas.
pub proof fn lemma_transfer_stays_off_chain(
    w: WalletModel,
    participant: Seq<u8>,
    t: TransactionModel,
    gas: u64,
)
    requires
        t.request.op is Transfer,
        wallet_apply(w, participant, t, gas) is Ok,
    ensures
        wallet_apply(w, participant, t, gas)->Ok_0.0.balance == w.balance,
        wallet_apply(w, participant, t, gas)->Ok_0.1 == 0,
{
}


/// What a wallet has on the ledger of the chain and what it has in a
/// channel add up, before and after a transaction of that channel, to the
/// same, but for the gas it paid and the amount of a transfer: funds only
/// move between the ledger and the channel, and within the channel between
/// its two sides.
pub proof fn lemma_wallet_apply_conserves(
    w: WalletModel,
    participant: Seq<u8>,
    t: TransactionModel,
    gas: u64,
)
    requires
        wallet_apply(w, participant, t, gas) is Ok,
    ensures
        ({
            let (after, paid) = wallet_apply(w, participant, t, gas)->Ok_0;
            let before_local = ledger_of(w, participant).local_balance;
            let after_local = ledger_of(after, participant).local_balance;
            let role = role_in(w, participant, t)->0;
            let fresh = apply_model(ledger_of(w, participant), role, t.request)->Ok_0.1;
            let received = if t.request.op is Transfer && fresh {
                if role is Proposer {
                    -(own_amount(t.request.op, role) as int)
                } else {
                    own_amount(t.request.op, role) as int
                }
            } else {
                0
            };
            &&& after.balance + after_local + paid == w.balance + before_local + received
            &&& role is Receiver ==> paid == 0
            &&& paid <= gas
        }),
{
    let ledger = ledger_of(w, participant);
    let role = role_in(w, participant, t)->0;
    let (next, fresh) = apply_model(ledger, role, t.request)->Ok_0;
    if fresh {
        lemma_with_ledger(w.channels, participant, next);
    }
}

} // verus!
