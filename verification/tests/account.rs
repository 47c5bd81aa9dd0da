use accounts::account::Account;
use accounts::{Amount, ClientId, Transaction, TransactionType, Txid};

fn dec(mantissa: i128, scale: u32) -> Amount {
    Amount::new(mantissa, scale).unwrap()
}

#[test]
fn deposit_positive_works() {
    let mut account = Account::new(ClientId(1));
    account.deposit(Txid(1), dec(100, 2));
    assert_eq!(account.available(), dec(100, 2));
    assert_eq!(account.held(), dec(0, 0));
}

#[test]
fn deposit_negative_ignored() {
    let mut account = Account::new(ClientId(1));
    account.deposit(Txid(1), dec(-100, 2));
    assert_eq!(account.available(), dec(0, 0));
    assert_eq!(account.held(), dec(0, 0));
}

#[test]
fn withdraw_positive_works() {
    let mut account = Account::new(ClientId(1));
    account.deposit(Txid(1), dec(100, 2));
    account.withdraw(dec(50, 2));
    assert_eq!(account.available(), dec(50, 2));
    assert_eq!(account.held(), dec(0, 0));
}

#[test]
fn withdraw_negative_ignored() {
    let mut account = Account::new(ClientId(1));
    account.deposit(Txid(1), dec(100, 2));
    account.withdraw(dec(-50, 2));
    assert_eq!(account.available(), dec(100, 2));
    assert_eq!(account.held(), dec(0, 0));
}

#[test]
fn withdraw_from_locked_ignored() {
    let mut account = Account::new(ClientId(1));
    account.deposit(Txid(1), dec(100, 2));
    // lock the account: the chargeback of an empty deposit moves no funds
    account.deposit(Txid(2), dec(0, 0));
    account.dispute(Txid(2));
    account.chargeback(Txid(2));
    assert_eq!(account.locked(), true);
    account.withdraw(dec(50, 2));
    assert_eq!(account.available(), dec(100, 2));
    assert_eq!(account.held(), dec(0, 0));
}

#[test]
fn withdraw_insufficient_funds_ignored() {
    let mut account = Account::new(ClientId(1));
    account.deposit(Txid(1), dec(100, 2));
    account.withdraw(dec(150, 2));
    assert_eq!(account.available(), dec(100, 2));
    assert_eq!(account.held(), dec(0, 0));
}

#[test]
fn dispute_deposit_works() {
    let mut account = Account::new(ClientId(1));
    let txid = Txid(1);
    account.deposit(txid, dec(100, 2));
    account.dispute(txid);
    assert_eq!(account.available(), dec(0, 0));
    assert_eq!(account.held(), dec(100, 2));
}

#[test]
fn dispute_nondeposit_ignores() {
    let mut account = Account::new(ClientId(1));
    account.deposit(Txid(1), dec(100, 2));
    account.dispute(Txid(2));
    assert_eq!(account.available(), dec(100, 2));
    assert_eq!(account.held(), dec(0, 0));
}

#[test]
fn resolve_deposit_works() {
    let mut account = Account::new(ClientId(1));
    let txid = Txid(1);
    account.deposit(txid, dec(100, 2));
    account.dispute(txid);
    account.resolve(txid);
    assert_eq!(account.available(), dec(100, 2));
    assert_eq!(account.held(), dec(0, 0));
}

#[test]
fn resolve_undisputed_ignores() {
    let mut account = Account::new(ClientId(1));
    let txid = Txid(1);
    account.deposit(txid, dec(100, 2));
    account.resolve(txid);
    assert_eq!(account.available(), dec(100, 2));
    assert_eq!(account.held(), dec(0, 0));
}

#[test]
fn chargeback_deposit_works() {
    let mut account = Account::new(ClientId(1));
    let txid = Txid(1);
    account.deposit(txid, dec(100, 2));
    account.dispute(txid);
    account.chargeback(txid);
    assert_eq!(account.available(), dec(0, 0));
    assert_eq!(account.held(), dec(0, 0));
    assert_eq!(account.locked(), true);
}

#[test]
fn chargeback_undisputed_ignores() {
    let mut account = Account::new(ClientId(1));
    let txid = Txid(1);
    account.deposit(txid, dec(100, 2));
    account.chargeback(txid);
    assert_eq!(account.available(), dec(100, 2));
    assert_eq!(account.held(), dec(0, 0));
    assert_eq!(account.locked(), false);
}

#[test]
fn dispute_more_than_balance_ignores() {
    let mut account = Account::new(ClientId(1));
    let txid = Txid(1);
    account.deposit(txid, dec(100, 2));
    account.withdraw(dec(100, 2));
    account.dispute(txid);
    assert_eq!(account.available(), dec(0, 0));
    assert_eq!(account.held(), dec(0, 0));
}

#[test]
fn new_account_is_empty() {
    let account = Account::new(ClientId(9));
    assert_eq!(account.id(), ClientId(9));
    assert_eq!(account.available().units(), 0);
    assert_eq!(account.held().units(), 0);
    assert_eq!(account.locked(), false);
}

#[test]
fn snapshot_total_is_available_plus_held() {
    let mut account = Account::new(ClientId(3));
    account.deposit(Txid(1), dec(125, 2));
    account.deposit(Txid(2), dec(3, 0));
    account.dispute(Txid(1));
    let snapshot = account.snapshot();
    assert_eq!(snapshot.id, ClientId(3));
    assert_eq!(snapshot.available.units(), 30_000_i128);
    assert_eq!(snapshot.held.units(), 12_500);
    assert_eq!(snapshot.total.units(), 42_500);
    assert_eq!(snapshot.locked, false);
}

#[test]
fn process_ignores_another_clients_transaction() {
    let mut account = Account::new(ClientId(1));
    account.process(Transaction {
        tx_type: TransactionType::Deposit(dec(100, 2)),
        client_id: ClientId(2),
        txid: Txid(1),
    });
    assert_eq!(account.available().units(), 0);
    account.process(Transaction {
        tx_type: TransactionType::Deposit(dec(100, 2)),
        client_id: ClientId(1),
        txid: Txid(1),
    });
    assert_eq!(account.available().units(), 10_000);
}

#[test]
fn process_routes_each_kind() {
    let client_id = ClientId(1);
    let mut account = Account::new(client_id);
    account.process(Transaction { tx_type: TransactionType::Deposit(dec(5, 0)), client_id, txid: Txid(1) });
    account.process(Transaction { tx_type: TransactionType::Withdrawal(dec(15, 1)), client_id, txid: Txid(2) });
    assert_eq!(account.available().units(), 35_000);
    account.process(Transaction { tx_type: TransactionType::Dispute, client_id, txid: Txid(1) });
    // 3.5 available cannot cover the disputed 5
    assert_eq!(account.held().units(), 0);
    account.process(Transaction { tx_type: TransactionType::Deposit(dec(2, 0)), client_id, txid: Txid(3) });
    account.process(Transaction { tx_type: TransactionType::Dispute, client_id, txid: Txid(1) });
    assert_eq!(account.available().units(), 5_000);
    assert_eq!(account.held().units(), 50_000);
    account.process(Transaction { tx_type: TransactionType::Resolve, client_id, txid: Txid(1) });
    assert_eq!(account.available().units(), 55_000);
    assert_eq!(account.held().units(), 0);
    account.process(Transaction { tx_type: TransactionType::Dispute, client_id, txid: Txid(3) });
    account.process(Transaction { tx_type: TransactionType::Chargeback, client_id, txid: Txid(3) });
    assert_eq!(account.available().units(), 35_000);
    assert_eq!(account.held().units(), 0);
    assert_eq!(account.locked(), true);
}

#[test]
fn deposit_under_a_used_id_replaces_the_record() {
    let mut account = Account::new(ClientId(1));
    account.deposit(Txid(1), dec(1, 0));
    account.deposit(Txid(1), dec(2, 0));
    assert_eq!(account.available().units(), 30_000);
    account.dispute(Txid(1));
    assert_eq!(account.available().units(), 10_000);
    assert_eq!(account.held().units(), 20_000);
}

#[test]
fn large_deposits_are_credited() {
    let mut account = Account::new(ClientId(1));
    account.deposit(Txid(1), dec(9_223_372_036_854_775_807, 4));
    account.deposit(Txid(2), dec(1, 4));
    assert_eq!(account.available(), dec(9_223_372_036_854_775_808, 4));
    account.deposit(Txid(3), dec(10_000_000_000_000_000_000, 4));
    assert_eq!(account.available(), dec(19_223_372_036_854_775_808, 4));
    account.deposit(Txid(4), dec(7_000_000_000_000_000_000_000_000, 0));
    assert_eq!(account.available().scale(), 4);
    assert_eq!(
        account.available().units(),
        70_000_000_000_000_000_000_000_000_000 + 19_223_372_036_854_775_808
    );
    assert_eq!(account.snapshot().total, account.available());
    // a whole amount as large as a coefficient can be
    let mut whole = Account::new(ClientId(2));
    whole.deposit(Txid(5), dec(79_228_162_514_264_337_593_543_950_334, 0));
    whole.deposit(Txid(6), dec(1, 0));
    assert_eq!(whole.available().mantissa(), 79_228_162_514_264_337_593_543_950_335);
    assert_eq!(whole.snapshot().total.mantissa(), 79_228_162_514_264_337_593_543_950_335);
}

#[test]
fn deposit_that_overflows_is_ignored() {
    let max = 79_228_162_514_264_337_593_543_950_335;
    let mut account = Account::new(ClientId(1));
    account.deposit(Txid(1), dec(max, 0));
    assert_eq!(account.available(), dec(max, 0));
    account.deposit(Txid(2), dec(1, 0));
    assert_eq!(account.available(), dec(max, 0));
    // the deposit left no record
    account.dispute(Txid(2));
    assert_eq!(account.held(), dec(0, 0));
    account.withdraw(dec(1, 0));
    assert_eq!(account.available(), dec(max - 1, 0));
    account.deposit(Txid(3), dec(1, 0));
    assert_eq!(account.available(), dec(max, 0));
}

#[test]
fn deposit_that_would_be_rounded_is_ignored() {
    let max = 79_228_162_514_264_337_593_543_950_335;
    let mut account = Account::new(ClientId(1));
    account.deposit(Txid(1), dec(max, 0));
    account.deposit(Txid(2), dec(1, 4));
    assert_eq!(account.available().mantissa(), max);
    assert_eq!(account.available().scale(), 0);
    account.withdraw(dec(5, 1));
    assert_eq!(account.available().mantissa(), max);
    assert_eq!(account.available().scale(), 0);
}

#[test]
fn total_is_kept_exact() {
    let max = 79_228_162_514_264_337_593_543_950_335;
    let mut account = Account::new(ClientId(1));
    account.deposit(Txid(1), dec(max, 0));
    account.dispute(Txid(1));
    assert_eq!(account.held(), dec(max, 0));
    assert_eq!(account.available(), dec(0, 0));
    // one more would take the total beyond what can be held
    account.deposit(Txid(2), dec(1, 0));
    assert_eq!(account.available(), dec(0, 0));
    assert_eq!(account.snapshot().total, dec(max, 0));
}

#[test]
fn balances_keep_their_natural_scale() {
    let mut account = Account::new(ClientId(1));
    assert_eq!(account.snapshot().total.scale(), 0);
    account.deposit(Txid(1), dec(100, 2));
    assert_eq!((account.available().mantissa(), account.available().scale()), (100, 2));
    account.deposit(Txid(2), dec(5, 1));
    assert_eq!((account.available().mantissa(), account.available().scale()), (150, 2));
    account.dispute(Txid(2));
    assert_eq!((account.available().mantissa(), account.available().scale()), (100, 2));
    assert_eq!((account.held().mantissa(), account.held().scale()), (5, 1));
    let snapshot = account.snapshot();
    assert_eq!((snapshot.total.mantissa(), snapshot.total.scale()), (150, 2));
    account.withdraw(dec(100, 2));
    let snapshot = account.snapshot();
    assert_eq!((snapshot.available.mantissa(), snapshot.available.scale()), (0, 2));
    assert_eq!((snapshot.total.mantissa(), snapshot.total.scale()), (5, 1));
}
