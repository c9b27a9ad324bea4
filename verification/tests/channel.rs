use stargate::block_loop::{
    keep_running, on_tick, ShutdownPoll, TickAction, BLOCK_EPOCH, BLOCK_INTERVAL_SECS,
    BLOCK_TIMESTAMP, MAX_BLOCK_SIZE,
};
use stargate::channel::{Channel, ChannelError, ChannelOp, ChannelRequest, Role, Stage};

fn opened(local: u64, remote: u64) -> Channel {
    let mut channel = Channel::new();
    let request = channel
        .propose(ChannelOp::Open { local_amount: local, remote_amount: remote })
        .unwrap();
    assert_eq!(channel.apply(Role::Proposer, &request), Ok(true));
    channel
}

#[test]
fn a_new_channel_is_not_open() {
    let channel = Channel::new();
    assert_eq!(channel.stage(), Stage::Uninitialized);
    assert_eq!((channel.local_balance(), channel.remote_balance()), (0, 0));
    assert_eq!(channel.sequence_number(), 0);
    assert_eq!(channel.pending(), None);
}

#[test]
fn opening_sets_the_agreed_balances() {
    let channel = opened(30, 70);
    assert_eq!(channel.stage(), Stage::Open);
    assert_eq!((channel.local_balance(), channel.remote_balance()), (30, 70));
    assert_eq!(channel.sequence_number(), 1);
    assert_eq!(channel.pending(), None);
}

#[test]
fn the_two_sides_see_a_transaction_mirrored() {
    let mut mine = opened(30, 70);
    let mut theirs = Channel::new();
    let open = ChannelRequest {
        sequence_number: 0,
        op: ChannelOp::Open { local_amount: 30, remote_amount: 70 },
    };
    assert_eq!(theirs.verify(&open), Ok(()));
    assert_eq!(theirs.apply(Role::Receiver, &open), Ok(true));
    assert_eq!((theirs.local_balance(), theirs.remote_balance()), (70, 30));

    let steps = [
        (ChannelOp::Deposit { local_amount: 5, remote_amount: 1 }, (35, 71)),
        (ChannelOp::Transfer { amount: 20 }, (15, 91)),
        (ChannelOp::Withdraw { local_amount: 15, remote_amount: 90 }, (0, 1)),
    ];
    for (op, (local, remote)) in steps {
        let request = mine.propose(op).unwrap();
        assert_eq!(mine.pending(), Some(request));
        assert_eq!(theirs.verify(&request), Ok(()));
        assert_eq!(theirs.apply(Role::Receiver, &request), Ok(true));
        assert_eq!(theirs.verify(&request), Ok(()));
        assert_eq!(mine.apply(Role::Proposer, &request), Ok(true));
        assert_eq!(mine.pending(), None);
        assert_eq!((mine.local_balance(), mine.remote_balance()), (local, remote));
        assert_eq!((theirs.local_balance(), theirs.remote_balance()), (remote, local));
        assert_eq!(mine.sequence_number(), theirs.sequence_number());
        assert_eq!(op.is_travel(), !matches!(op, ChannelOp::Transfer { .. }));
    }
}

#[test]
fn what_was_applied_is_not_applied_again() {
    let mut channel = opened(30, 70);
    let deposit = channel.propose(ChannelOp::Deposit { local_amount: 5, remote_amount: 5 }).unwrap();
    assert_eq!(channel.apply(Role::Proposer, &deposit), Ok(true));
    let after = channel;
    assert_eq!(channel.apply(Role::Proposer, &deposit), Ok(false));
    assert_eq!(channel, after);
    assert_eq!((channel.local_balance(), channel.remote_balance()), (35, 75));
    assert!(channel.was_applied_last(Role::Proposer, &deposit));
    assert!(!channel.was_applied_last(Role::Receiver, &deposit));
}

#[test]
fn each_refusal_has_its_reason() {
    let mut channel = Channel::new();
    let deposit = ChannelOp::Deposit { local_amount: 1, remote_amount: 1 };
    assert_eq!(channel.propose(deposit), Err(ChannelError::WrongStage));
    let mut channel = opened(10, 10);
    assert_eq!(
        channel.propose(ChannelOp::Open { local_amount: 1, remote_amount: 1 }),
        Err(ChannelError::WrongStage)
    );
    assert_eq!(
        channel.propose(ChannelOp::Withdraw { local_amount: 11, remote_amount: 0 }),
        Err(ChannelError::InsufficientBalance)
    );
    assert_eq!(
        channel.propose(ChannelOp::Transfer { amount: 11 }),
        Err(ChannelError::InsufficientBalance)
    );
    assert_eq!(
        channel.propose(ChannelOp::Deposit { local_amount: u64::MAX, remote_amount: 0 }),
        Err(ChannelError::Overflow)
    );
    let late = ChannelRequest { sequence_number: 0, op: deposit };
    assert_eq!(channel.verify(&late), Err(ChannelError::WrongSequence));
    assert_eq!(channel.apply(Role::Receiver, &late), Err(ChannelError::WrongSequence));
    let next = ChannelRequest { sequence_number: 1, op: deposit };
    assert_eq!(channel.admits(Role::Receiver, &next), Ok(()));
    assert_eq!(channel.apply(Role::Proposer, &next), Err(ChannelError::NotPending));
    // a payment of the counterparty is limited by its balance
    let payment = ChannelRequest { sequence_number: 1, op: ChannelOp::Transfer { amount: 11 } };
    assert_eq!(channel.verify(&payment), Err(ChannelError::InsufficientBalance));

    let waiting = channel.propose(deposit).unwrap();
    assert_eq!(channel.propose(deposit), Ok(waiting));
    assert_eq!(
        channel.propose(ChannelOp::Transfer { amount: 1 }),
        Err(ChannelError::PendingRequest)
    );
    channel.abandon();
    assert_eq!(channel.pending(), None);
    assert_eq!((channel.local_balance(), channel.remote_balance()), (10, 10));

    assert!(channel.close());
    assert_eq!(channel.stage(), Stage::Closed);
    assert!(!channel.close());
    assert_eq!(channel.propose(deposit), Err(ChannelError::WrongStage));
    assert!(!Channel::new().close());
}

#[test]
fn amounts_are_named_from_the_side_of_the_proposer() {
    let op = ChannelOp::Withdraw { local_amount: 3, remote_amount: 4 };
    assert_eq!(op.own_amount(Role::Proposer), 3);
    assert_eq!(op.own_amount(Role::Receiver), 4);
    assert_eq!(ChannelOp::Transfer { amount: 9 }.own_amount(Role::Receiver), 9);
    assert_eq!(Role::Proposer.other(), Role::Receiver);
    assert_eq!(Role::Receiver.other(), Role::Proposer);
}

#[test]
fn the_block_task_stops_on_a_signal_and_builds_where_something_waits() {
    assert!(keep_running(ShutdownPoll::Pending));
    assert!(!keep_running(ShutdownPoll::Signalled));
    assert!(!keep_running(ShutdownPoll::Cancelled));
    assert_eq!(on_tick(ShutdownPoll::Pending, 0), TickAction::Skip);
    assert_eq!(on_tick(ShutdownPoll::Pending, 1), TickAction::BuildBlock);
    assert_eq!(on_tick(ShutdownPoll::Pending, 40), TickAction::BuildBlock);
    assert_eq!(on_tick(ShutdownPoll::Signalled, 5), TickAction::Stop);
    assert_eq!(on_tick(ShutdownPoll::Cancelled, 0), TickAction::Stop);
    assert_eq!(
        (BLOCK_INTERVAL_SECS, MAX_BLOCK_SIZE, BLOCK_EPOCH, BLOCK_TIMESTAMP),
        (3, 1, 0, u64::MAX)
    );
}
