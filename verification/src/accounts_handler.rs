//! # Accounts Handler
//!
//! All clients' accounts: routes each transaction to the account of its
//! client, and lets no transaction id through twice.

use std::collections::{HashMap, HashSet};

use vstd::prelude::*;
use vstd::std_specs::hash::spec_hash_map_iter;
use vstd::std_specs::iter::IteratorSpec;

use crate::account::{Account, AccountSnapshot};
use crate::state::{lemma_submit_valid, LedgerState};
use crate::text::with_number;
use crate::text::decimal_digits;
use crate::{Transaction, TransactionType, Txid};

verus! {

broadcast use vstd::std_specs::hash::group_hash_axioms;

/// The error of a transaction whose id was submitted before.
#[derive(Debug, Clone, Copy, PartialEq, Eq, Structural)]
pub struct DuplicateTxid(pub Txid);

impl DuplicateTxid {
    /// The error in words: `duplicate txid: ` and the id in decimal digits.
    pub fn message(&self) -> (text: String)
        ensures
            text@ == "duplicate txid: "@ + decimal_digits(self.0.0 as nat),
    {
        with_number("duplicate txid: ", self.0.0)
    }
}

/// Accounts handler for multiple clients
pub struct AccountsHandler {
    /// Map of client id to accounts
    accounts: HashMap<u16, Account>,
    /// Set of txids, used to ensure global uniqueness of txids
    txids: HashSet<u32>,
}

impl View for AccountsHandler {
    type V = LedgerState;

    closed spec fn view(&self) -> LedgerState {
        LedgerState {
            accounts: Map::new(
                |client: u16| self.accounts@.contains_key(client),
                |client: u16| self.accounts@[client]@,
            ),
            txids: self.txids@,
        }
    }
}

impl AccountsHandler {
    /// Whether the handler is well formed: its state is valid.
    pub open spec fn wf(&self) -> bool {
        self@.valid()
    }

    /// Create a new accounts handler
    pub fn new() -> (handler: AccountsHandler)
        ensures
            handler.wf(),
            handler@ == LedgerState::new(),
    {
        let handler = AccountsHandler { accounts: HashMap::new(), txids: HashSet::new() };
        proof {
            assert(handler@.accounts =~= Map::empty());
        }
        handler
    }

    /// How many accounts there are.
    pub fn account_count(&self) -> (count: usize)
        ensures
            count == self@.accounts.len(),
    {
        proof {
            assert(self@.accounts.dom() =~= self.accounts@.dom());
        }
        self.accounts.len()
    }

    /// How many transaction ids were seen.
    pub fn txid_count(&self) -> (count: usize)
        ensures
            count == self@.txids.len(),
    {
        self.txids.len()
    }

    /// Demultiplex a transaction by client id
    pub fn submit_transaction(&mut self, tx: Transaction) -> (r: Result<(), DuplicateTxid>)
        requires
            old(self).wf(),
        ensures
            final(self).wf(),
            final(self)@ == old(self)@.submit(tx),
            r is Ok <==> old(self)@.admits(tx),
            r matches Err(e) ==> e == DuplicateTxid(tx.txid),
    {
        proof {
            match tx.tx_type {
                TransactionType::Deposit(amount) => {
                    use_type_invariant(amount);
                },
                TransactionType::Withdrawal(amount) => {
                    use_type_invariant(amount);
                },
                _ => {},
            }
            lemma_submit_valid(self@, tx);
        }
        // ensure txid is unique
        if !self.txids.insert(tx.txid.0) {
            proof {
                assert(self@.txids =~= old(self)@.txids);
            }
            return Err(DuplicateTxid(tx.txid));
        }
        // get account for client
        let account = self.accounts.entry(tx.client_id.0).or_insert(Account::new(tx.client_id));

        // process transaction
        account.process(tx);
        proof {
            assert(self@.accounts =~= old(self)@.submit(tx).accounts);
        }
        Ok(())
    }

    /// Get snapshots of all accounts
    pub fn snapshot_accounts(&self) -> (snapshots: Vec<AccountSnapshot>)
        requires
            self.wf(),
        ensures
            self@.reported_by(snapshots@.map_values(|s: AccountSnapshot| s@)),
    {
        let mut snapshots: Vec<AccountSnapshot> = Vec::new();
        let ghost entries = spec_hash_map_iter(&self.accounts).remaining();
        for entry in it: self.accounts.iter()
            invariant
                self.wf(),
                it.seq() == entries,
                entries == spec_hash_map_iter(&self.accounts).remaining(),
                entries.no_duplicates(),
                snapshots@.len() == it.index(),
                forall|i: int|
                    0 <= i < it.index() ==> (#[trigger] snapshots@[i])@ == (*entries[i].1)@.snapshot(),
        {
            let account = entry.1;
            proof {
                assert(self@.accounts.contains_key(*entry.0));
            }
            snapshots.push(account.snapshot());
        }
        proof {
            let reported = snapshots@.map_values(|s: AccountSnapshot| s@);
            assert(self@.accounts.dom() =~= self.accounts@.dom());
            assert forall|i: int| 0 <= i < reported.len() implies self@.accounts.contains_key(
                (#[trigger] reported[i]).client.0,
            ) && reported[i] == self@.accounts[reported[i].client.0].snapshot() by {
                assert(self.accounts@.contains_key(*entries[i].0));
            }
            assert forall|client: u16| #[trigger]
                self@.accounts.contains_key(client) implies reported.contains(
                self@.accounts[client].snapshot(),
            ) by {
                let entry = (&client, &self.accounts@[client]);
                assert(entries.contains(entry));
                let i = choose|i: int| 0 <= i < entries.len() && entries[i] == entry;
                assert(reported[i] == self@.accounts[client].snapshot());
            }
            assert forall|i: int, j: int| 0 <= i < j < reported.len() implies (
            #[trigger] reported[i]).client != (#[trigger] reported[j]).client by {
                assert(self.accounts@.contains_key(*entries[i].0));
                assert(self.accounts@.contains_key(*entries[j].0));
                assert(entries[i] != entries[j]);
            }
        }
        snapshots
    }
}

} // verus!
