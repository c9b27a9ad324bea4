use stargate::access_path::AccountAddress;
use stargate::channel::{ChannelError, ChannelOp, Stage};
use stargate::wallet::Wallet;

const GAS: u64 = 1_234;

fn address(tag: u8) -> AccountAddress {
    AccountAddress::new([tag; 32])
}

fn open_channel(sender: &mut Wallet, receiver: &mut Wallet, local: u64, remote: u64) -> u64 {
    let open_txn = sender.open(receiver.account(), local, remote).unwrap();
    assert!(open_txn.is_travel_txn(), "open_txn must travel txn");
    let receiver_open_txn = receiver.verify_txn(&open_txn).unwrap();
    let gas_used = sender.apply_txn(receiver.account(), &receiver_open_txn, GAS).unwrap();
    let receiver_gas = receiver.apply_txn(sender.account(), &receiver_open_txn, GAS).unwrap();
    assert_eq!(receiver_gas, 0);
    gas_used
}

#[test]
fn test_wallet() {
    let sender_amount: u64 = 10_000_000;
    let receiver_amount: u64 = 10_000_000;
    let sender_fund_amount: u64 = 0;
    let receiver_fund_amount: u64 = 0;

    let sender_deposit_amount: u64 = 5_000_000;
    let receiver_deposit_amount: u64 = 4_000_000;

    let transfer_amount = 1_000_000;

    let sender_withdraw_amount: u64 = 4_000_000;
    let receiver_withdraw_amount: u64 = 5_000_000;

    let mut sender_wallet = Wallet::new(address(1), sender_amount);
    let mut receiver_wallet = Wallet::new(address(2), receiver_amount);
    assert_eq!(sender_wallet.balance(), sender_amount);
    assert_eq!(receiver_wallet.balance(), receiver_amount);

    let sender = sender_wallet.account();
    let receiver = receiver_wallet.account();

    let mut sender_gas_used = 0;

    sender_gas_used += open_channel(
        &mut sender_wallet,
        &mut receiver_wallet,
        sender_fund_amount,
        receiver_fund_amount,
    );

    let sender_channel_balance = sender_wallet.channel_balance(receiver).unwrap();
    assert_eq!(sender_channel_balance, sender_fund_amount);
    let receiver_channel_balance = receiver_wallet.channel_balance(sender).unwrap();
    assert_eq!(receiver_channel_balance, receiver_fund_amount);

    let deposit_txn = sender_wallet
        .deposit(receiver, sender_deposit_amount, receiver_deposit_amount)
        .unwrap();
    assert!(deposit_txn.is_travel_txn(), "open_txn must travel txn");

    let receiver_deposit_txn = receiver_wallet.verify_txn(&deposit_txn).unwrap();

    receiver_wallet.apply_txn(sender, &receiver_deposit_txn, GAS).unwrap();
    sender_gas_used += sender_wallet.apply_txn(receiver, &receiver_deposit_txn, GAS).unwrap();

    let sender_channel_balance = sender_wallet.channel_balance(receiver).unwrap();
    assert_eq!(sender_channel_balance, sender_fund_amount + sender_deposit_amount);
    let receiver_channel_balance = receiver_wallet.channel_balance(sender).unwrap();
    assert_eq!(receiver_channel_balance, receiver_fund_amount + receiver_deposit_amount);

    let sender_on_chain = sender_wallet.balance();
    let receiver_on_chain = receiver_wallet.balance();

    let transfer_txn = sender_wallet.transfer(receiver, transfer_amount).unwrap();
    assert!(!transfer_txn.is_travel_txn(), "transfer_txn must not travel txn");

    let receiver_transfer_txn = receiver_wallet.verify_txn(&transfer_txn).unwrap();
    // now, the receiver applies the txn
    receiver_wallet.apply_txn(sender, &receiver_transfer_txn, GAS).unwrap();
    // then the sender is still pending
    assert!(
        sender_wallet.get_pending_txn_request(receiver_wallet.account()).is_some(),
        "sender should have pending txn"
    );
    // then retry the txn
    let retried_txn = receiver_wallet.verify_txn(&transfer_txn).unwrap();
    assert_eq!(receiver_transfer_txn, retried_txn, "two txn shold be equal");

    sender_gas_used += sender_wallet.apply_txn(receiver, &receiver_transfer_txn, GAS).unwrap();
    let _ = receiver_wallet.apply_txn(sender, &receiver_transfer_txn, GAS).unwrap();
    assert!(sender_wallet.get_pending_txn_request(receiver).is_none());

    let sender_channel_balance = sender_wallet.channel_balance(receiver).unwrap();
    assert_eq!(
        sender_channel_balance,
        sender_fund_amount + sender_deposit_amount - transfer_amount
    );
    let receiver_channel_balance = receiver_wallet.channel_balance(sender).unwrap();
    assert_eq!(
        receiver_channel_balance,
        receiver_fund_amount + receiver_deposit_amount + transfer_amount
    );
    assert_eq!(sender_wallet.balance(), sender_on_chain);
    assert_eq!(receiver_wallet.balance(), receiver_on_chain);

    let withdraw_txn = sender_wallet
        .withdraw(receiver, sender_withdraw_amount, receiver_withdraw_amount)
        .unwrap();
    assert!(withdraw_txn.is_travel_txn(), "withdraw_txn must travel txn");

    let receiver_withdraw_txn = receiver_wallet.verify_txn(&withdraw_txn).unwrap();

    receiver_wallet.apply_txn(sender, &receiver_withdraw_txn, GAS).unwrap();
    sender_gas_used += sender_wallet.apply_txn(receiver, &receiver_withdraw_txn, GAS).unwrap();

    let sender_channel_balance = sender_wallet.channel_balance(receiver).unwrap();
    assert_eq!(
        sender_channel_balance,
        sender_fund_amount + sender_deposit_amount - transfer_amount - sender_withdraw_amount
    );
    let receiver_channel_balance = receiver_wallet.channel_balance(sender).unwrap();
    assert_eq!(
        receiver_channel_balance,
        receiver_fund_amount + receiver_deposit_amount + transfer_amount
            - receiver_withdraw_amount
    );

    assert_eq!(sender_gas_used, 3 * GAS);
    let sender_balance = sender_wallet.balance();
    let receiver_balance = receiver_wallet.balance();
    assert_eq!(
        sender_balance,
        sender_amount - sender_gas_used - sender_fund_amount - sender_deposit_amount
            + sender_withdraw_amount
    );
    assert_eq!(
        receiver_balance,
        receiver_amount - receiver_fund_amount - receiver_deposit_amount
            + receiver_withdraw_amount
    );
}

#[test]
fn a_travel_transaction_is_applied_once() {
    let mut sender = Wallet::new(address(1), 10_000);
    let mut receiver = Wallet::new(address(2), 1_000);
    open_channel(&mut sender, &mut receiver, 100, 200);
    assert_eq!(sender.balance(), 10_000 - 100 - GAS);
    let deposit = sender.deposit(receiver.account(), 10, 20).unwrap();
    let confirmed = receiver.verify_txn(&deposit).unwrap();
    assert_eq!(receiver.apply_txn(sender.account(), &confirmed, 5), Ok(0));
    assert_eq!(receiver.apply_txn(sender.account(), &confirmed, 5), Ok(0));
    assert_eq!(receiver.channel_balance(sender.account()), Ok(220));
    assert_eq!(receiver.balance(), 1_000 - 200 - 20);
}

#[test]
fn a_second_application_costs_no_gas() {
    let mut sender = Wallet::new(address(1), 10_000);
    let mut receiver = Wallet::new(address(2), 10_000);
    let open = sender.open(receiver.account(), 100, 200).unwrap();
    let confirmed = receiver.verify_txn(&open).unwrap();
    assert_eq!(sender.apply_txn(receiver.account(), &confirmed, 7), Ok(7));
    let after = (sender.balance(), sender.channel_balance(receiver.account()));
    assert_eq!(after, (10_000 - 100 - 7, Ok(100)));
    assert_eq!(sender.apply_txn(receiver.account(), &confirmed, 7), Ok(0));
    assert_eq!((sender.balance(), sender.channel_balance(receiver.account())), after);
}

#[test]
fn a_proposal_made_again_is_the_same_transaction() {
    let mut sender = Wallet::new(address(1), 10_000);
    let mut receiver = Wallet::new(address(2), 10_000);
    open_channel(&mut sender, &mut receiver, 100, 100);
    let first = sender.transfer(receiver.account(), 30).unwrap();
    let again = sender.transfer(receiver.account(), 30).unwrap();
    assert_eq!(first, again);
    assert_eq!(
        sender.transfer(receiver.account(), 31),
        Err(ChannelError::PendingRequest)
    );
    sender.abandon(receiver.account());
    assert!(sender.get_pending_txn_request(receiver.account()).is_none());
    let other = sender.transfer(receiver.account(), 31).unwrap();
    assert_eq!(other.request.op, ChannelOp::Transfer { amount: 31 });
}

#[test]
fn verification_rejects_what_does_not_fit_the_channel() {
    let mut sender = Wallet::new(address(1), 10_000);
    let mut receiver = Wallet::new(address(2), 150);
    let stranger = Wallet::new(address(3), 10_000);

    assert_eq!(
        sender.open(sender.account(), 1, 1),
        Err(ChannelError::WrongCounterparty)
    );
    assert_eq!(
        sender.transfer(receiver.account(), 1),
        Err(ChannelError::WrongCounterparty)
    );
    assert_eq!(
        sender.open(receiver.account(), 10_001, 0),
        Err(ChannelError::InsufficientBalance)
    );

    let open = sender.open(receiver.account(), 100, 200).unwrap();
    assert_eq!(stranger.verify_txn(&open), Err(ChannelError::WrongCounterparty));
    assert_eq!(receiver.verify_txn(&open), Err(ChannelError::InsufficientBalance));
    assert_eq!(
        sender.apply_txn(receiver.account(), &open, GAS),
        Err(ChannelError::NotConfirmed)
    );
    sender.abandon(receiver.account());

    open_channel(&mut sender, &mut receiver, 100, 100);
    assert_eq!(
        sender.open(receiver.account(), 1, 1),
        Err(ChannelError::WrongStage)
    );
    assert_eq!(
        sender.transfer(receiver.account(), 101),
        Err(ChannelError::InsufficientBalance)
    );
    assert_eq!(
        sender.withdraw(receiver.account(), 100, 101),
        Err(ChannelError::InsufficientBalance)
    );

    let transfer = sender.transfer(receiver.account(), 40).unwrap();
    let mut stale = transfer;
    stale.request.sequence_number = 0;
    assert_eq!(receiver.verify_txn(&stale), Err(ChannelError::WrongSequence));
    let confirmed = receiver.verify_txn(&transfer).unwrap();
    assert!(confirmed.confirmed);
    let before = receiver.clone();
    assert_eq!(receiver.apply_txn(sender.account(), &stale, 0), Err(ChannelError::NotConfirmed));
    assert_eq!(receiver.channel_balance(sender.account()), before.channel_balance(sender.account()));
    assert_eq!(receiver.channel(&sender.account()).stage(), Stage::Open);
}
