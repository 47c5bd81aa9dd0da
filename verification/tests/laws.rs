use accounts::account::Account;
use accounts::accounts_handler::{AccountsHandler, DuplicateTxid};
use accounts::{Amount, ClientId, Transaction, TransactionType, Txid};

fn dec(mantissa: i128, scale: u32) -> Amount {
    Amount::new(mantissa, scale).unwrap()
}

fn balances(account: &Account) -> (i128, i128, bool) {
    (account.available().units(), account.held().units(), account.locked())
}

#[test]
fn balances_stay_non_negative_through_a_run() {
    let client_id = ClientId(1);
    let mut account = Account::new(client_id);
    let kinds = [
        TransactionType::Deposit(dec(250, 2)),
        TransactionType::Withdrawal(dec(300, 2)),
        TransactionType::Dispute,
        TransactionType::Dispute,
        TransactionType::Withdrawal(dec(1, 4)),
        TransactionType::Deposit(dec(-7, 0)),
        TransactionType::Resolve,
        TransactionType::Resolve,
        TransactionType::Withdrawal(dec(250, 2)),
        TransactionType::Dispute,
        TransactionType::Chargeback,
        TransactionType::Deposit(dec(1, 0)),
        TransactionType::Dispute,
        TransactionType::Chargeback,
        TransactionType::Chargeback,
        TransactionType::Withdrawal(dec(1, 0)),
    ];
    for tx_type in kinds {
        account.process(Transaction { tx_type, client_id, txid: Txid(1) });
        assert!(account.available().units() >= 0);
        assert!(account.held().units() >= 0);
        assert!(!account.available().is_sign_negative());
        assert!(!account.held().is_sign_negative());
    }
    assert_eq!(balances(&account), (0, 0, true));
}

#[test]
fn dispute_then_resolve_restores_the_balances() {
    let mut account = Account::new(ClientId(1));
    account.deposit(Txid(1), dec(5, 0));
    account.deposit(Txid(2), dec(125, 2));
    account.dispute(Txid(1));
    let before = balances(&account);
    assert_eq!(before, (12_500, 50_000, false));
    account.dispute(Txid(2));
    assert_eq!(balances(&account), (0, 62_500, false));
    account.resolve(Txid(2));
    assert_eq!(balances(&account), before);
    // a dispute that is ignored, for want of the deposit, is restored too
    account.dispute(Txid(3));
    account.resolve(Txid(3));
    assert_eq!(balances(&account), before);
}

#[test]
fn no_withdrawal_after_a_chargeback() {
    let mut account = Account::new(ClientId(1));
    account.deposit(Txid(1), dec(1, 0));
    account.deposit(Txid(2), dec(10, 0));
    account.dispute(Txid(1));
    account.chargeback(Txid(1));
    assert_eq!(balances(&account), (100_000, 0, true));
    account.withdraw(dec(1, 4));
    account.withdraw(dec(10, 0));
    account.withdraw(dec(0, 0));
    assert_eq!(balances(&account), (100_000, 0, true));
    account.deposit(Txid(3), dec(1, 0));
    account.dispute(Txid(2));
    account.resolve(Txid(2));
    account.withdraw(dec(1, 0));
    assert_eq!(balances(&account), (110_000, 0, true));
}

#[test]
fn same_id_twice_applies_once() {
    let mut handler = AccountsHandler::new();
    let first = Transaction {
        tx_type: TransactionType::Deposit(dec(1, 0)),
        client_id: ClientId(1),
        txid: Txid(1),
    };
    let other = Transaction {
        tx_type: TransactionType::Deposit(dec(2, 0)),
        client_id: ClientId(2),
        txid: Txid(2),
    };
    let second = Transaction {
        tx_type: TransactionType::Deposit(dec(4, 0)),
        client_id: ClientId(2),
        txid: Txid(1),
    };
    assert_eq!(handler.submit_transaction(first), Ok(()));
    assert_eq!(handler.submit_transaction(other), Ok(()));
    assert_eq!(handler.submit_transaction(second), Err(DuplicateTxid(Txid(1))));
    assert_eq!(handler.submit_transaction(first), Err(DuplicateTxid(Txid(1))));
    let mut snapshots = handler.snapshot_accounts();
    snapshots.sort_by_key(|snapshot| snapshot.id.0);
    assert_eq!(snapshots.len(), 2);
    assert_eq!(snapshots[0].available.units(), 10_000);
    assert_eq!(snapshots[1].available.units(), 20_000);
    assert_eq!(handler.txid_count(), 2);
}

#[test]
fn dispute_of_an_unknown_id_changes_nothing() {
    let mut account = Account::new(ClientId(1));
    account.deposit(Txid(1), dec(1, 0));
    account.dispute(Txid(2));
    assert_eq!(balances(&account), (10_000, 0, false));
    account.resolve(Txid(2));
    account.chargeback(Txid(2));
    assert_eq!(balances(&account), (10_000, 0, false));
}

#[test]
fn second_dispute_changes_nothing() {
    let mut account = Account::new(ClientId(1));
    account.deposit(Txid(1), dec(1, 0));
    account.deposit(Txid(2), dec(1, 0));
    account.dispute(Txid(1));
    assert_eq!(balances(&account), (10_000, 10_000, false));
    account.dispute(Txid(1));
    assert_eq!(balances(&account), (10_000, 10_000, false));
    // the one dispute is resolved once
    account.resolve(Txid(1));
    account.resolve(Txid(1));
    assert_eq!(balances(&account), (20_000, 0, false));
}

#[test]
fn disputes_keep_the_total() {
    let mut account = Account::new(ClientId(1));
    account.deposit(Txid(1), dec(12_345, 4));
    account.deposit(Txid(2), dec(5, 1));
    let total = account.snapshot().total;
    account.dispute(Txid(1));
    assert_eq!(account.snapshot().total, total);
    account.resolve(Txid(1));
    assert_eq!(account.snapshot().total, total);
    assert_eq!(total.units(), 17_345);
}

fn totals(handler: &AccountsHandler) -> Vec<(u16, i128, i128, bool)> {
    let mut snapshots = handler.snapshot_accounts();
    snapshots.sort_by_key(|snapshot| snapshot.id.0);
    snapshots
        .iter()
        .map(|s| (s.id.0, s.available.units(), s.held.units(), s.locked))
        .collect()
}

#[test]
fn different_clients_commute() {
    let a = Transaction {
        tx_type: TransactionType::Deposit(dec(15, 1)),
        client_id: ClientId(1),
        txid: Txid(10),
    };
    let b = Transaction {
        tx_type: TransactionType::Deposit(dec(7, 0)),
        client_id: ClientId(2),
        txid: Txid(11),
    };
    let mut one = AccountsHandler::new();
    assert!(one.submit_transaction(a).is_ok());
    assert!(one.submit_transaction(b).is_ok());
    let mut other = AccountsHandler::new();
    assert!(other.submit_transaction(b).is_ok());
    assert!(other.submit_transaction(a).is_ok());
    assert_eq!(totals(&one), totals(&other));
    assert_eq!(totals(&one), vec![(1, 15_000, 0, false), (2, 70_000, 0, false)]);
}

#[test]
fn submit_touches_one_account() {
    let mut handler = AccountsHandler::new();
    let first = Transaction {
        tx_type: TransactionType::Deposit(dec(3, 0)),
        client_id: ClientId(1),
        txid: Txid(1),
    };
    let second = Transaction {
        tx_type: TransactionType::Withdrawal(dec(1, 0)),
        client_id: ClientId(2),
        txid: Txid(2),
    };
    assert!(handler.submit_transaction(first).is_ok());
    assert_eq!(totals(&handler), vec![(1, 30_000, 0, false)]);
    assert!(handler.submit_transaction(second).is_ok());
    assert_eq!(totals(&handler), vec![(1, 30_000, 0, false), (2, 0, 0, false)]);
}

#[test]
fn dispute_then_resolve_at_the_edge_of_the_coefficient() {
    let whole = 7_922_816_251_426_433_759_354_395_034;
    let mut account = Account::new(ClientId(1));
    account.deposit(Txid(1), dec(5, 1));
    account.withdraw(dec(5, 1));
    account.deposit(Txid(2), dec(whole, 0));
    assert_eq!((account.available().mantissa(), account.available().scale()), (whole, 0));
    // the hold leaves 2^96 - 1 tenths; the total is exact at no scale but 0
    account.dispute(Txid(1));
    assert_eq!(
        (account.available().mantissa(), account.available().scale()),
        (79_228_162_514_264_337_593_543_950_335, 1)
    );
    assert_eq!((account.held().mantissa(), account.held().scale()), (5, 1));
    assert_eq!(account.snapshot().total, dec(whole, 0));
    account.resolve(Txid(1));
    assert_eq!(account.available(), dec(whole, 0));
    assert_eq!(account.held().units(), 0);
    assert_eq!(account.snapshot().total, dec(whole, 0));
}
