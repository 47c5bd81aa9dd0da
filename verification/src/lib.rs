//! Per-client account ledger: replays deposits, withdrawals, disputes,
//! resolves and chargebacks into balances that never go negative.
//!
//! An [`Account`] applies one transaction at a time and ignores whatever
//! does not apply: a negative amount, a withdrawal of more than is
//! available, a dispute of an unknown deposit. An [`AccountsHandler`] keeps
//! one account for each client and admits each transaction id once.
//!
//! Amounts are decimals with at most four fractional digits and a
//! coefficient below 2^96. `rust_decimal` adds, subtracts and compares them;
//! a balance changes only where the new one is exact. The module `state`
//! says what every operation computes, and the module `laws` what follows
//! for every run.

use vstd::prelude::*;

pub mod account;
pub mod accounts_handler;
pub mod amount;
pub mod decimal;
pub mod laws;
pub mod row;
pub mod state;
pub mod text;

pub use account::{Account, AccountSnapshot};
pub use accounts_handler::{AccountsHandler, DuplicateTxid};
pub use amount::Amount;

verus! {

/// Identifies one client.
#[derive(Debug, Clone, Copy, PartialEq, Eq, Hash, Structural)]
pub struct ClientId(pub u16);

/// Identifies one transaction; unique over the whole input.
#[derive(Debug, Clone, Copy, PartialEq, Eq, Hash, Structural)]
pub struct Txid(pub u32);

impl Txid {
    /// The id in decimal digits.
    pub fn to_string(&self) -> (text: String)
        ensures
            text@ == text::decimal_digits(self.0 as nat),
    {
        let text = text::with_number("", self.0);
        proof {
            reveal_strlit("");
            assert(text@ =~= text::decimal_digits(self.0 as nat));
        }
        text
    }
}

/// What a transaction asks for.
#[derive(Debug, Clone, Copy)]
pub enum TransactionType {
    /// Credit the amount to the client.
    Deposit(Amount),
    /// Debit the amount from the client.
    Withdrawal(Amount),
    /// Hold the funds of the deposit that the transaction id names.
    Dispute,
    /// Release the held funds of the disputed deposit.
    Resolve,
    /// Forfeit the held funds of the disputed deposit and lock the account.
    Chargeback,
}

/// Transaction on an account
#[derive(Debug, Clone, Copy)]
pub struct Transaction {
    pub tx_type: TransactionType,
    pub client_id: ClientId,
    pub txid: Txid,
}

impl Transaction {
    /// Whether the amount of the transaction, if it has one, is an amount.
    /// It is, in every transaction that a program holds.
    pub open spec fn wf(self) -> bool {
        match self.tx_type {
            TransactionType::Deposit(amount) => amount.wf(),
            TransactionType::Withdrawal(amount) => amount.wf(),
            _ => true,
        }
    }

    /// Whether the transaction brings its own amount, as deposits and
    /// withdrawals do, rather than pointing at an earlier deposit.
    pub fn is_generative_tx(&self) -> (r: bool)
        ensures
            r == (self.tx_type is Deposit || self.tx_type is Withdrawal),
    {
        match self.tx_type {
            TransactionType::Deposit(_) | TransactionType::Withdrawal(_) => true,
            _ => false,
        }
    }
}

} // verus!
