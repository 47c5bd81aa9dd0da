//! # Account
//!
//! One client's account: its balances, and the deposits that can still be
//! disputed.

use std::collections::HashMap;

use vstd::prelude::*;

use crate::amount::Amount;
use crate::state::{
    lemma_chargeback_valid, lemma_deposit_valid, lemma_dispute_valid, lemma_new_valid,
    lemma_resolve_valid, lemma_withdraw_valid, AccountState, Balances, DepositState,
};
use crate::{ClientId, Transaction, TransactionType, Txid};

verus! {

broadcast use vstd::std_specs::hash::group_hash_axioms;

/// Deposit record
#[derive(Debug, Clone, Copy)]
pub(crate) struct DepositRecord {
    /// Deposit amount
    amount: Amount,
    /// Disputed
    disputed: bool,
}

impl View for DepositRecord {
    type V = DepositState;

    closed spec fn view(&self) -> DepositState {
        DepositState { amount: self.amount@, disputed: self.disputed }
    }
}

/// Snapshot of the client's account
#[derive(Debug, Clone, Copy, PartialEq)]
pub struct AccountSnapshot {
    /// Client's ID
    pub id: ClientId,
    /// Available balance
    pub available: Amount,
    /// Held balance
    pub held: Amount,
    /// Total balance
    pub total: Amount,
    /// Locked status
    pub locked: bool,
}

impl View for AccountSnapshot {
    type V = Balances;

    open spec fn view(&self) -> Balances {
        Balances {
            client: self.id,
            available: self.available@,
            held: self.held@,
            total: self.total@,
            locked: self.locked,
        }
    }
}

/// Client's account
pub struct Account {
    /// Client's ID
    id: ClientId,
    /// Record of deposits as a map of transaction IDs to deposit records
    deposits: HashMap<u32, DepositRecord>,
    /// Available balance
    available: Amount,
    /// Held balance
    held: Amount,
    /// Locked status
    locked: bool,
}

impl View for Account {
    type V = AccountState;

    closed spec fn view(&self) -> AccountState {
        AccountState {
            id: self.id,
            deposits: Map::new(
                |id: u32| self.deposits@.contains_key(id),
                |id: u32| self.deposits@[id]@,
            ),
            available: self.available@,
            held: self.held@,
            locked: self.locked,
        }
    }
}

impl Account {
    /// Whether the account is well formed: its state is valid.
    pub open spec fn wf(&self) -> bool {
        self@.valid()
    }

    /// Create a new empty account
    pub fn new(id: ClientId) -> (account: Account)
        ensures
            account.wf(),
            account@ == AccountState::new(id),
    {
        let account = Account {
            id,
            deposits: HashMap::new(),
            available: Amount::zero(),
            held: Amount::zero(),
            locked: false,
        };
        proof {
            lemma_new_valid(id);
            assert(account@.deposits =~= Map::empty());
        }
        account
    }

    /// Client's ID
    pub fn id(&self) -> (id: ClientId)
        ensures
            id == self@.id,
    {
        self.id
    }

    /// Available balance
    pub fn available(&self) -> (amount: Amount)
        ensures
            amount@ == self@.available,
    {
        self.available
    }

    /// Held balance
    pub fn held(&self) -> (amount: Amount)
        ensures
            amount@ == self@.held,
    {
        self.held
    }

    /// Locked status
    pub fn locked(&self) -> (locked: bool)
        ensures
            locked == self@.locked,
    {
        self.locked
    }

    /// Process a transaction
    pub fn process(&mut self, tx: Transaction)
        requires
            old(self).wf(),
        ensures
            final(self).wf(),
            final(self)@ == old(self)@.apply(tx),
            final(self)@.available.units() >= 0,
            final(self)@.held.units() >= 0,
    {
        // reject if client id does not match
        if tx.client_id.0 != self.id.0 {
            return ;
        }
        match tx.tx_type {
            TransactionType::Deposit(amount) => self.deposit(tx.txid, amount),
            TransactionType::Withdrawal(amount) => self.withdraw(amount),
            TransactionType::Dispute => self.dispute(tx.txid),
            TransactionType::Resolve => self.resolve(tx.txid),
            TransactionType::Chargeback => self.chargeback(tx.txid),
        }
    }

    /// Whether both balances are at hand and can be added up exactly.
    fn settles(available: Option<Amount>, held: Option<Amount>) -> (r: bool)
        ensures
            r == (available is Some && held is Some && available->0@.sum(held->0@) is Some),
    {
        match (available, held) {
            (Some(available), Some(held)) => available.checked_add(held).is_some(),
            _ => false,
        }
    }

    /// Deposit funds into the account
    pub fn deposit(&mut self, txid: Txid, amount: Amount)
        requires
            old(self).wf(),
        ensures
            final(self).wf(),
            final(self)@ == old(self)@.deposit(txid.0, amount@),
    {
        proof {
            use_type_invariant(amount);
            lemma_deposit_valid(self@, txid.0, amount@);
        }
        // if negative amount, ignore
        if amount.is_sign_negative() {
            return ;
        }
        // if the new balance is not exact, ignore
        let available = self.available.checked_add(amount);
        if !Account::settles(available, Some(self.held)) {
            return ;
        }
        // record deposit
        self.deposits.insert(txid.0, DepositRecord { amount, disputed: false });
        self.available = available.unwrap();
        proof {
            assert(self@.deposits =~= old(self)@.deposits.insert(
                txid.0,
                DepositState { amount: amount@, disputed: false },
            ));
        }
    }

    /// Withdraw funds from the account
    pub fn withdraw(&mut self, amount: Amount)
        requires
            old(self).wf(),
        ensures
            final(self).wf(),
            final(self)@ == old(self)@.withdraw(amount@),
    {
        proof {
            use_type_invariant(amount);
            lemma_withdraw_valid(self@, amount@);
        }
        // if locked, disallow withdrawals
        if self.locked {
            return ;
        }
        // if negative amount, ignore
        if amount.is_sign_negative() {
            return ;
        }
        // if insufficient funds, ignore
        if !self.available.ge(&amount) {
            return ;
        }
        // if the new balance is not exact, ignore
        let new_balance = self.available.checked_sub(amount);
        if !Account::settles(new_balance, Some(self.held)) {
            return ;
        }
        self.available = new_balance.unwrap();
    }

    /// Dispute a transaction
    pub fn dispute(&mut self, txid: Txid)
        requires
            old(self).wf(),
        ensures
            final(self).wf(),
            final(self)@ == old(self)@.dispute(txid.0),
    {
        proof {
            lemma_dispute_valid(self@, txid.0);
        }
        // only deposits can be disputed
        let record = match self.deposits.get(&txid.0) {
            Some(record) => *record,
            None => {
                return ;
            },
        };
        // if already disputed or if available balance cannot take a dispute, ignore
        if !record.disputed && self.available.ge(&record.amount) {
            let available = self.available.checked_sub(record.amount);
            let held = self.held.checked_add(record.amount);
            // if the new balances are not exact, ignore
            if !Account::settles(available, held) {
                return ;
            }
            // hold funds
            self.deposits.insert(txid.0, DepositRecord { amount: record.amount, disputed: true });
            self.available = available.unwrap();
            self.held = held.unwrap();
            proof {
                assert(self@.deposits =~= old(self)@.mark(txid.0, true));
            }
        }
    }

    /// Resolve a transaction
    pub fn resolve(&mut self, txid: Txid)
        requires
            old(self).wf(),
        ensures
            final(self).wf(),
            final(self)@ == old(self)@.resolve(txid.0),
    {
        proof {
            lemma_resolve_valid(self@, txid.0);
        }
        // only disputed deposits can be resolved
        let record = match self.deposits.get(&txid.0) {
            Some(record) => *record,
            None => {
                return ;
            },
        };
        // if not disputed, ignore
        if record.disputed {
            let available = self.available.checked_add(record.amount);
            let held = self.held.checked_sub(record.amount);
            // if the new balances are not exact, ignore
            if !Account::settles(available, held) {
                return ;
            }
            // release funds
            self.deposits.insert(txid.0, DepositRecord { amount: record.amount, disputed: false });
            self.available = available.unwrap();
            self.held = held.unwrap();
            proof {
                assert(self@.deposits =~= old(self)@.mark(txid.0, false));
            }
        }
    }

    /// Chargeback a transaction
    pub fn chargeback(&mut self, txid: Txid)
        requires
            old(self).wf(),
        ensures
            final(self).wf(),
            final(self)@ == old(self)@.chargeback(txid.0),
    {
        proof {
            lemma_chargeback_valid(self@, txid.0);
        }
        // only disputed deposits can be chargebacked
        let record = match self.deposits.get(&txid.0) {
            Some(record) => *record,
            None => {
                return ;
            },
        };
        // if not disputed, ignore
        if record.disputed {
            let held = self.held.checked_sub(record.amount);
            // if the new balance is not exact, ignore
            if !Account::settles(Some(self.available), held) {
                return ;
            }
            // reverse transaction and lock account
            self.deposits.insert(txid.0, DepositRecord { amount: record.amount, disputed: false });
            self.held = held.unwrap();
            self.locked = true;
            proof {
                assert(self@.deposits =~= old(self)@.mark(txid.0, false));
            }
        }
    }

    /// Get a snapshot of the account
    pub fn snapshot(&self) -> (snapshot: AccountSnapshot)
        requires
            self.wf(),
        ensures
            snapshot@ == self@.snapshot(),
            snapshot@.total.units() == snapshot@.available.units() + snapshot@.held.units(),
    {
        let total = self.available.checked_add(self.held);
        AccountSnapshot {
            id: self.id,
            available: self.available,
            held: self.held,
            total: total.unwrap(),
            locked: self.locked,
        }
    }
}

} // verus!
