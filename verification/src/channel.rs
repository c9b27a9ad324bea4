//! The ledger that one party keeps of its channel with a counterparty: the
//! balances on the two sides, the place in the sequence of transactions, and
//! the request of its own that it waits to see applied.

use vstd::prelude::*;

verus! {

/// Where a channel stands in its life.
#[derive(Clone, Copy, Debug, PartialEq, Eq, Structural)]
pub enum Stage {
    /// The channel has not been opened.
    Uninitialized,
    /// The channel is open: funds can be moved in, out and across.
    Open,
    /// The channel has been settled on the ledger and takes no more
    /// transactions.
    Closed,
}

/// What a transaction of a channel does. Amounts are named as the party
/// that proposes the transaction sees them: `local` is its own side.
#[derive(Clone, Copy, Debug, PartialEq, Eq, Structural)]
pub enum ChannelOp {
    /// Opens the channel, each side putting in its amount.
    Open { local_amount: u64, remote_amount: u64 },
    /// Each side puts its amount into the channel.
    Deposit { local_amount: u64, remote_amount: u64 },
    /// Each side takes its amount out of the channel.
    Withdraw { local_amount: u64, remote_amount: u64 },
    /// The proposer pays the amount to the counterparty, within the channel.
    Transfer { amount: u64 },
}

/// The part that the owner of a ledger has in a transaction.
#[derive(Clone, Copy, Debug, PartialEq, Eq, Structural)]
pub enum Role {
    /// The owner proposed the transaction.
    Proposer,
    /// The counterparty proposed it.
    Receiver,
}

/// A transaction of a channel: what it does, and its place in the sequence
/// of the channel's transactions.
#[derive(Clone, Copy, Debug, PartialEq, Eq, Structural)]
pub struct ChannelRequest {
    pub sequence_number: u64,
    pub op: ChannelOp,
}

/// Why a channel refused a transaction.
#[derive(Clone, Copy, Debug, PartialEq, Eq, Structural)]
pub enum ChannelError {
    /// The transaction is not between the owner of the ledger and the
    /// counterparty it was handed in for, or there is no channel with it.
    WrongCounterparty,
    /// The transaction is not the next in the sequence of the channel.
    WrongSequence,
    /// The channel is not at the stage that the transaction needs: only a
    /// channel that was never opened can be opened, and only an open one can
    /// take anything else.
    WrongStage,
    /// A side has less than the transaction takes from it.
    InsufficientBalance,
    /// A balance or the sequence number would pass `u64::MAX`.
    Overflow,
    /// The owner already waits for another request of its own.
    PendingRequest,
    /// The owner is asked to apply, as its own, a request it does not wait for.
    NotPending,
    /// The counterparty has not confirmed the transaction.
    NotConfirmed,
}

/// What one party knows of its channel with a counterparty.
pub struct LedgerModel {
    pub stage: Stage,
    /// The balance of the owner in the channel.
    pub local_balance: u64,
    /// The balance of the counterparty in the channel.
    pub remote_balance: u64,
    /// The number of transactions applied so far.
    pub sequence_number: u64,
    /// The request of the owner that it waits to see applied.
    pub pending: Option<ChannelRequest>,
    /// The transaction applied last, and the owner's part in it.
    pub last_applied: Option<(Role, ChannelRequest)>,
}

/// The transaction moves funds between the channel and the ledger, and so
/// has to be settled on the ledger: opening, deposit and withdrawal. A
/// transfer stays between the two parties.
pub open spec fn is_travel(op: ChannelOp) -> bool {
    !(op is Transfer)
}

/// The amount of the transaction on the side of the owner of a ledger
/// with the part `role` in it; for a transfer, the amount.
pub open spec fn own_amount(op: ChannelOp, role: Role) -> u64 {
    match op {
        ChannelOp::Open { local_amount, remote_amount } => if role is Proposer {
            local_amount
        } else {
            remote_amount
        },
        ChannelOp::Deposit { local_amount, remote_amount } => if role is Proposer {
            local_amount
        } else {
            remote_amount
        },
        ChannelOp::Withdraw { local_amount, remote_amount } => if role is Proposer {
            local_amount
        } else {
            remote_amount
        },
        ChannelOp::Transfer { amount } => amount,
    }
}

/// The amount of the transaction on the side of the counterparty; for a
/// transfer, the amount.
pub open spec fn other_amount(op: ChannelOp, role: Role) -> u64 {
    own_amount(
        op,
        if role is Proposer {
            Role::Receiver
        } else {
            Role::Proposer
        },
    )
}

/// By how much the transaction moves the balance of the owner in the
/// channel, and by how much that of the counterparty.
pub open spec fn balance_changes(op: ChannelOp, role: Role) -> (int, int) {
    let own = own_amount(op, role) as int;
    let other = other_amount(op, role) as int;
    match op {
        ChannelOp::Open { .. } => (own, other),
        ChannelOp::Deposit { .. } => (own, other),
        ChannelOp::Withdraw { .. } => (-own, -other),
        ChannelOp::Transfer { amount } => if role is Proposer {
            (-(amount as int), amount as int)
        } else {
            (amount as int, -(amount as int))
        },
    }
}

/// Whether the ledger `c` takes `request` as its next transaction, its
/// owner having the part `role` in it; the first reason why not, in the
/// order: sequence, stage, balance, overflow.
pub open spec fn admits(c: LedgerModel, role: Role, request: ChannelRequest) -> Result<
    (),
    ChannelError,
> {
    let (own, other) = balance_changes(request.op, role);
    if request.sequence_number != c.sequence_number {
        Err(ChannelError::WrongSequence)
    } else if (request.op is Open) != (c.stage is Uninitialized) || c.stage is Closed {
        Err(ChannelError::WrongStage)
    } else if c.local_balance + own < 0 || c.remote_balance + other < 0 {
        Err(ChannelError::InsufficientBalance)
    } else if c.local_balance + own > u64::MAX || c.remote_balance + other > u64::MAX
        || c.sequence_number == u64::MAX {
        Err(ChannelError::Overflow)
    } else {
        Ok(())
    }
}

/// The ledger `c` after `request`, which it admits, has been applied.
pub open spec fn applied(c: LedgerModel, role: Role, request: ChannelRequest) -> LedgerModel {
    let (own, other) = balance_changes(request.op, role);
    LedgerModel {
        stage: Stage::Open,
        local_balance: (c.local_balance + own) as u64,
        remote_balance: (c.remote_balance + other) as u64,
        sequence_number: (c.sequence_number + 1) as u64,
        pending: if role is Proposer {
            None
        } else {
            c.pending
        },
        last_applied: Some((role, request)),
    }
}

/// What proposing `op` on the ledger `c` gives: the request, and the ledger
/// that waits for it. A request that the ledger already waits for is given
/// again as it is; while it waits for one, no other can be proposed.
pub open spec fn propose_model(c: LedgerModel, op: ChannelOp) -> Result<
    (LedgerModel, ChannelRequest),
    ChannelError,
> {
    let request = ChannelRequest { sequence_number: c.sequence_number, op };
    match c.pending {
        Some(waiting) => if waiting.op == op {
            Ok((c, waiting))
        } else {
            Err(ChannelError::PendingRequest)
        },
        None => match admits(c, Role::Proposer, request) {
            Ok(()) => Ok((LedgerModel { pending: Some(request), ..c }, request)),
            Err(e) => Err(e),
        },
    }
}

/// Whether the owner of the ledger `c` confirms `request` of its
/// counterparty: it does where its ledger admits the request, and also where
/// the request is the one it applied last.
pub open spec fn verify_model(c: LedgerModel, request: ChannelRequest) -> Result<
    (),
    ChannelError,
> {
    if c.last_applied == Some((Role::Receiver, request)) {
        Ok(())
    } else {
        admits(c, Role::Receiver, request)
    }
}

/// What applying `request` to the ledger `c` gives: the ledger afterwards,
/// and whether the request was applied now, not before. A request that was
/// applied last is not applied again.
pub open spec fn apply_model(c: LedgerModel, role: Role, request: ChannelRequest) -> Result<
    (LedgerModel, bool),
    ChannelError,
> {
    if c.last_applied == Some((role, request)) {
        Ok((c, false))
    } else {
        match admits(c, role, request) {
            Err(e) => Err(e),
            Ok(()) => if role is Proposer && c.pending != Some(request) {
                Err(ChannelError::NotPending)
            } else {
                Ok((applied(c, role, request), true))
            },
        }
    }
}

impl ChannelOp {
    /// Tells whether the transaction has to be settled on the ledger.
    pub fn is_travel(&self) -> (travel: bool)
        ensures
            travel == is_travel(*self),
    {
        match self {
            ChannelOp::Transfer { .. } => false,
            _ => true,
        }
    }

    /// The amount of the transaction on the side of the party with the part
    /// `role` in it.
    pub fn own_amount(&self, role: Role) -> (amount: u64)
        ensures
            amount == own_amount(*self, role),
    {
        let proposer = match role {
            Role::Proposer => true,
            Role::Receiver => false,
        };
        match self {
            ChannelOp::Open { local_amount, remote_amount } => if proposer {
                *local_amount
            } else {
                *remote_amount
            },
            ChannelOp::Deposit { local_amount, remote_amount } => if proposer {
                *local_amount
            } else {
                *remote_amount
            },
            ChannelOp::Withdraw { local_amount, remote_amount } => if proposer {
                *local_amount
            } else {
                *remote_amount
            },
            ChannelOp::Transfer { amount } => *amount,
        }
    }
}

impl Role {
    /// The part of the other party.
    pub fn other(&self) -> (role: Role)
        ensures
            role != *self,
    {
        match self {
            Role::Proposer => Role::Receiver,
            Role::Receiver => Role::Proposer,
        }
    }
}

/// The ledger of a channel, as one of its two parties keeps it.
#[derive(Clone, Copy, Debug, PartialEq, Eq)]
pub struct Channel {
    stage: Stage,
    local_balance: u64,
    remote_balance: u64,
    sequence_number: u64,
    pending: Option<ChannelRequest>,
    last_applied: Option<(Role, ChannelRequest)>,
}

impl View for Channel {
    type V = LedgerModel;

    closed spec fn view(&self) -> LedgerModel {
        LedgerModel {
            stage: self.stage,
            local_balance: self.local_balance,
            remote_balance: self.remote_balance,
            sequence_number: self.sequence_number,
            pending: self.pending,
            last_applied: self.last_applied,
        }
    }
}

/// The ledger of a channel that has not been opened.
pub open spec fn unopened() -> LedgerModel {
    LedgerModel {
        stage: Stage::Uninitialized,
        local_balance: 0,
        remote_balance: 0,
        sequence_number: 0,
        pending: None,
        last_applied: None,
    }
}

impl Channel {
    /// The ledger of a channel that has not been opened.
    pub fn new() -> (channel: Self)
        ensures
            channel@ == unopened(),
    {
        Channel {
            stage: Stage::Uninitialized,
            local_balance: 0,
            remote_balance: 0,
            sequence_number: 0,
            pending: None,
            last_applied: None,
        }
    }

    pub fn stage(&self) -> (stage: Stage)
        ensures
            stage == self@.stage,
    {
        self.stage
    }

    /// The balance of the owner in the channel.
    pub fn local_balance(&self) -> (balance: u64)
        ensures
            balance == self@.local_balance,
    {
        self.local_balance
    }

    /// The balance of the counterparty in the channel.
    pub fn remote_balance(&self) -> (balance: u64)
        ensures
            balance == self@.remote_balance,
    {
        self.remote_balance
    }

    /// The number of transactions applied so far.
    pub fn sequence_number(&self) -> (n: u64)
        ensures
            n == self@.sequence_number,
    {
        self.sequence_number
    }

    /// The request of the owner that waits to be applied, if one does.
    pub fn pending(&self) -> (request: Option<ChannelRequest>)
        ensures
            request == self@.pending,
    {
        self.pending
    }

    /// Tells whether the ledger takes `request` as its next transaction, and
    /// if not, why not.
    pub fn admits(&self, role: Role, request: &ChannelRequest) -> (verdict: Result<
        (),
        ChannelError,
    >)
        ensures
            verdict == admits(self@, role, *request),
    {
        if request.sequence_number != self.sequence_number {
            return Err(ChannelError::WrongSequence);
        }
        let opens = match request.op {
            ChannelOp::Open { .. } => true,
            _ => false,
        };
        let unopened = match self.stage {
            Stage::Uninitialized => true,
            _ => false,
        };
        let closed = match self.stage {
            Stage::Closed => true,
            _ => false,
        };
        if opens != unopened || closed {
            return Err(ChannelError::WrongStage);
        }
        let own = request.op.own_amount(role);
        let other = request.op.own_amount(role.other());
        let proposer = match role {
            Role::Proposer => true,
            Role::Receiver => false,
        };
        match request.op {
            ChannelOp::Open { .. } | ChannelOp::Deposit { .. } => {
                if own > u64::MAX - self.local_balance || other > u64::MAX - self.remote_balance {
                    return Err(ChannelError::Overflow);
                }
            },
            ChannelOp::Withdraw { .. } => {
                if own > self.local_balance || other > self.remote_balance {
                    return Err(ChannelError::InsufficientBalance);
                }
            },
            ChannelOp::Transfer { amount } => {
                if proposer {
                    if amount > self.local_balance {
                        return Err(ChannelError::InsufficientBalance);
                    }
                    if amount > u64::MAX - self.remote_balance {
                        return Err(ChannelError::Overflow);
                    }
                } else {
                    if amount > self.remote_balance {
                        return Err(ChannelError::InsufficientBalance);
                    }
                    if amount > u64::MAX - self.local_balance {
                        return Err(ChannelError::Overflow);
                    }
                }
            },
        }
        if self.sequence_number == u64::MAX {
            return Err(ChannelError::Overflow);
        }
        Ok(())
    }

    /// Proposes `op` as the next transaction of the channel: gives the
    /// request to send to the counterparty, and waits for it. Proposing again
    /// what the ledger waits for gives the same request; the ledger changes
    /// only in that it waits.
    pub fn propose(&mut self, op: ChannelOp) -> (request: Result<ChannelRequest, ChannelError>)
        ensures
            match propose_model(old(self)@, op) {
                Ok((after, made)) => request == Ok::<ChannelRequest, ChannelError>(made)
                    && final(self)@ == after,
                Err(e) => request == Err::<ChannelRequest, ChannelError>(e) && final(self)@
                    == old(self)@,
            },
    {
        match self.pending {
            Some(waiting) => {
                if waiting.op == op {
                    Ok(waiting)
                } else {
                    Err(ChannelError::PendingRequest)
                }
            },
            None => {
                let request = ChannelRequest { sequence_number: self.sequence_number, op };
                match self.admits(Role::Proposer, &request) {
                    Ok(()) => {
                        self.pending = Some(request);
                        Ok(request)
                    },
                    Err(e) => Err(e),
                }
            },
        }
    }

    /// Checks a request of the counterparty against the ledger, which stays
    /// as it is. A request that was applied last is confirmed again.
    pub fn verify(&self, request: &ChannelRequest) -> (verdict: Result<(), ChannelError>)
        ensures
            verdict == verify_model(self@, *request),
    {
        if self.was_applied_last(Role::Receiver, request) {
            Ok(())
        } else {
            self.admits(Role::Receiver, request)
        }
    }

    /// Tells whether `request` is the transaction applied last, with the
    /// owner in the part `role`.
    pub fn was_applied_last(&self, role: Role, request: &ChannelRequest) -> (was: bool)
        ensures
            was == (self@.last_applied == Some((role, *request))),
    {
        match self.last_applied {
            Some((last_role, last)) => last_role == role && last == *request,
            None => false,
        }
    }

    /// Applies `request` to the ledger, and tells whether it did so now: a
    /// request that was applied last is left at that. On a failure the ledger
    /// stays as it is.
    pub fn apply(&mut self, role: Role, request: &ChannelRequest) -> (result: Result<
        bool,
        ChannelError,
    >)
        ensures
            match apply_model(old(self)@, role, *request) {
                Ok((after, fresh)) => result == Ok::<bool, ChannelError>(fresh) && final(self)@
                    == after,
                Err(e) => result == Err::<bool, ChannelError>(e) && final(self)@ == old(self)@,
            },
    {
        if self.was_applied_last(role, request) {
            return Ok(false);
        }
        match self.admits(role, request) {
            Err(e) => {
                return Err(e);
            },
            Ok(()) => {},
        }
        let proposer = match role {
            Role::Proposer => true,
            Role::Receiver => false,
        };
        if proposer {
            let waits = match self.pending {
                Some(waiting) => waiting == *request,
                None => false,
            };
            if !waits {
                return Err(ChannelError::NotPending);
            }
            self.pending = None;
        }
        let own = request.op.own_amount(role);
        let other = request.op.own_amount(role.other());
        match request.op {
            ChannelOp::Open { .. } | ChannelOp::Deposit { .. } => {
                self.local_balance = self.local_balance + own;
                self.remote_balance = self.remote_balance + other;
            },
            ChannelOp::Withdraw { .. } => {
                self.local_balance = self.local_balance - own;
                self.remote_balance = self.remote_balance - other;
            },
            ChannelOp::Transfer { amount } => {
                if proposer {
                    self.local_balance = self.local_balance - amount;
                    self.remote_balance = self.remote_balance + amount;
                } else {
                    self.local_balance = self.local_balance + amount;
                    self.remote_balance = self.remote_balance - amount;
                }
            },
        }
        self.stage = Stage::Open;
        self.sequence_number = self.sequence_number + 1;
        self.last_applied = Some((role, *request));
        Ok(true)
    }

    /// Gives up the request that the ledger waits for, as when the ledger
    /// of the chain refused to settle it. Nothing else changes.
    pub fn abandon(&mut self)
        ensures
            final(self)@ == (LedgerModel { pending: None, ..old(self)@ }),
    {
        self.pending = None;
    }

    /// Marks the channel as settled on the ledger of the chain. Only an open
    /// channel can be closed; any other stays as it is.
    pub fn close(&mut self) -> (closed: bool)
        ensures
            closed == (old(self)@.stage is Open),
            closed ==> final(self)@ == (LedgerModel { stage: Stage::Closed, ..old(self)@ }),
            !closed ==> final(self)@ == old(self)@,
    {
        match self.stage {
            Stage::Open => {
                self.stage = Stage::Closed;
                true
            },
            _ => false,
        }
    }
}

/// A request that has been applied is not applied a second time: applying
/// it again succeeds, reports that nothing was done, and leaves the ledger,
/// and so both balances, as the first time left them.
pub proof fn lemma_apply_is_idempotent(c: LedgerModel, role: Role, request: ChannelRequest)
    requires
        apply_model(c, role, request) is Ok,
    ensures
        apply_model(apply_model(c, role, request)->Ok_0.0, role, request) == Ok::<
            (LedgerModel, bool),
            ChannelError,
        >((apply_model(c, role, request)->Ok_0.0, false)),
{
}

/// A request that the counterparty confirmed is confirmed again when it
/// comes a second time, before the owner applied it and after.
pub proof fn lemma_verify_again(c: LedgerModel, request: ChannelRequest)
    requires
        verify_model(c, request) is Ok,
    ensures
        apply_model(c, Role::Receiver, request) is Ok,
        verify_model(apply_model(c, Role::Receiver, request)->Ok_0.0, request) is Ok,
{
}

/// What a request that is applied does to the two balances of the ledger:
/// each moves by what the transaction says for its side, and their sum moves
/// by the funds that enter or leave the channel; a transfer leaves the sum
/// as it is.
pub proof fn lemma_apply_moves_balances(c: LedgerModel, role: Role, request: ChannelRequest)
    requires
        apply_model(c, role, request) matches Ok((_, fresh)) && fresh,
    ensures
        ({
            let after = apply_model(c, role, request)->Ok_0.0;
            let (own, other) = balance_changes(request.op, role);
            &&& after.local_balance == c.local_balance + own
            &&& after.remote_balance == c.remote_balance + other
            &&& after.sequence_number == c.sequence_number + 1
            &&& after.stage is Open
            &&& request.op is Transfer ==> after.local_balance + after.remote_balance
                == c.local_balance + c.remote_balance
        }),
{
}

/// The two parties of a channel whose ledgers mirror each other admit the
/// same requests, and their ledgers mirror each other again when both have
/// applied one, the one as its proposer and the other as its receiver.
pub proof fn lemma_ledgers_converge(
    proposer: LedgerModel,
    receiver: LedgerModel,
    request: ChannelRequest,
)
    requires
        mirrored(proposer, receiver),
        proposer.pending == Some(request),
    ensures
        admits(proposer, Role::Proposer, request) == admits(receiver, Role::Receiver, request),
        admits(proposer, Role::Proposer, request) is Ok ==> mirrored(
            applied(proposer, Role::Proposer, request),
            applied(receiver, Role::Receiver, request),
        ),
{
}

/// The two ledgers are at the same stage and place in the sequence, and
/// each has as its own balance what the other has as the counterparty's.
pub open spec fn mirrored(a: LedgerModel, b: LedgerModel) -> bool {
    &&& a.stage == b.stage
    &&& a.sequence_number == b.sequence_number
    &&& a.local_balance == b.remote_balance
    &&& a.remote_balance == b.local_balance
}


/// A request that is not the next in the sequence of a ledger changes
/// nothing there: it is refused, or it is the one applied last and left at
/// that. So a request that was applied at any time before is not applied
/// again.
pub proof fn lemma_apply_needs_the_next_in_sequence(
    c: LedgerModel,
    role: Role,
    request: ChannelRequest,
)
    requires
        request.sequence_number != c.sequence_number,
    ensures
        apply_model(c, role, request) is Ok ==> apply_model(c, role, request) == Ok::<
            (LedgerModel, bool),
            ChannelError,
        >((c, false)),
        apply_model(c, role, request) is Err ==> apply_model(c, role, request) == Err::<
            (LedgerModel, bool),
            ChannelError,
        >(ChannelError::WrongSequence),
{
}

/// What holds of every ledger that a channel can come to have: one never
/// opened is empty, and the transaction applied last is the one before the
/// next in the sequence.
pub open spec fn consistent(c: LedgerModel) -> bool {
    &&& c.stage is Uninitialized ==> c.sequence_number == 0 && c.local_balance == 0
        && c.remote_balance == 0 && c.last_applied is None
    &&& c.last_applied matches Some((_, last)) ==> last.sequence_number + 1
        == c.sequence_number
    &&& c.pending matches Some(waiting) ==> waiting.sequence_number <= c.sequence_number
}

/// A ledger stays consistent through everything that is done with it.
pub proof fn lemma_ledger_stays_consistent(
    c: LedgerModel,
    role: Role,
    request: ChannelRequest,
    op: ChannelOp,
)
    requires
        consistent(c),
    ensures
        consistent(unopened()),
        propose_model(c, op) matches Ok((after, _)) ==> consistent(after),
        apply_model(c, role, request) matches Ok((after, _)) ==> consistent(after),
        consistent(LedgerModel { pending: None, ..c }),
        c.stage is Open ==> consistent(LedgerModel { stage: Stage::Closed, ..c }),
{
}

} // verus!
