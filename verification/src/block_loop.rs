//! The decisions of the task that turns waiting transactions into blocks:
//! at each tick, whether to go on, and whether there is a block to build.
//! One block is built and committed before the next tick is looked at, so
//! commits come one after the other.

use vstd::prelude::*;

verus! {

/// Seconds between two ticks.
pub const BLOCK_INTERVAL_SECS: u64 = 3;

/// The most batches of waiting transactions that one block takes.
pub const MAX_BLOCK_SIZE: u64 = 1;

/// The epoch that a committed block is recorded under.
pub const BLOCK_EPOCH: u64 = 0;

/// The time that a committed block is recorded with.
pub const BLOCK_TIMESTAMP: u64 = u64::MAX;

/// What a look at the shutdown signal found.
#[derive(Clone, Copy, Debug, PartialEq, Eq, Structural)]
pub enum ShutdownPoll {
    /// Nothing has been sent, and the sender is still there.
    Pending,
    /// The signal to stop has been sent.
    Signalled,
    /// The sender is gone.
    Cancelled,
}

/// What the task does at a tick.
#[derive(Clone, Copy, Debug, PartialEq, Eq, Structural)]
pub enum TickAction {
    /// The task ends.
    Stop,
    /// No transaction waits: nothing is done until the next tick.
    Skip,
    /// The waiting transactions are executed as a block, the block is
    /// committed, and the transactions are taken off the waiting list.
    BuildBlock,
}

/// The task goes on as long as the signal to stop has not come and can
/// still come.
pub open spec fn goes_on(poll: ShutdownPoll) -> bool {
    poll is Pending
}

/// What the task does at a tick at which the look at the shutdown signal
/// found `poll` and `waiting` transactions wait.
pub open spec fn tick_action(poll: ShutdownPoll, waiting: usize) -> TickAction {
    if !goes_on(poll) {
        TickAction::Stop
    } else if waiting == 0 {
        TickAction::Skip
    } else {
        TickAction::BuildBlock
    }
}

/// Tells whether the task takes another tick.
pub fn keep_running(poll: ShutdownPoll) -> (on: bool)
    ensures
        on == goes_on(poll),
{
    match poll {
        ShutdownPoll::Pending => true,
        _ => false,
    }
}

/// Decides what the task does at a tick.
pub fn on_tick(poll: ShutdownPoll, waiting: usize) -> (action: TickAction)
    ensures
        action == tick_action(poll, waiting),
{
    if !keep_running(poll) {
        TickAction::Stop
    } else if waiting > 0 {
        TickAction::BuildBlock
    } else {
        TickAction::Skip
    }
}

} // verus!
