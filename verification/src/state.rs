//! The ledger as mathematics: what an account holds, and what each
//! transaction makes of it. The executable types are specified against
//! these functions.
//!
//! An account changes only where every new balance, and the total of the
//! balances, can be had exactly. A transaction that asks for more is
//! ignored like any other that does not apply.

use vstd::prelude::*;

use crate::amount::{lemma_difference_exact, lemma_sum_exact, AmountView};
use crate::{ClientId, Transaction, TransactionType};

verus! {

/// One accepted deposit.
pub struct DepositState {
    pub amount: AmountView,
    pub disputed: bool,
}

/// What a snapshot reports of one account.
pub struct Balances {
    pub client: ClientId,
    pub available: AmountView,
    pub held: AmountView,
    pub total: AmountView,
    pub locked: bool,
}

/// One client's account.
pub struct AccountState {
    pub id: ClientId,
    /// The accepted deposits, by transaction id.
    pub deposits: Map<u32, DepositState>,
    pub available: AmountView,
    pub held: AmountView,
    pub locked: bool,
}

/// What the deposit `id` contributes to the held funds, in ten-thousandths:
/// its amount while it is disputed, nothing otherwise.
pub open spec fn disputed_amount(deposits: Map<u32, DepositState>, id: u32) -> int {
    if deposits.contains_key(id) && deposits[id].disputed {
        deposits[id].amount.units()
    } else {
        0
    }
}

/// The disputed amounts of the deposits with an id below `n`, added up.
pub open spec fn disputed_below(deposits: Map<u32, DepositState>, n: nat) -> int
    decreases n,
{
    if n == 0 {
        0
    } else {
        disputed_below(deposits, (n - 1) as nat) + disputed_amount(deposits, (n - 1) as u32)
    }
}

/// The disputed amounts of all deposits, added up.
pub open spec fn disputed_total(deposits: Map<u32, DepositState>) -> int {
    disputed_below(deposits, 0x1_0000_0000)
}

impl AccountState {
    /// The account of a client that has not transacted yet.
    pub open spec fn new(id: ClientId) -> AccountState {
        AccountState {
            id,
            deposits: Map::empty(),
            available: AmountView { mantissa: 0, scale: 0 },
            held: AmountView { mantissa: 0, scale: 0 },
            locked: false,
        }
    }

    /// What holds of every account: its amounts are amounts, no balance and
    /// no deposit is negative, the held funds cover every deposit under
    /// dispute, and the total of the balances can be had.
    pub open spec fn valid(self) -> bool {
        &&& self.available.valid()
        &&& self.held.valid()
        &&& 0 <= self.available.units()
        &&& 0 <= self.held.units()
        &&& forall|id: u32| #[trigger]
            self.deposits.contains_key(id) ==> self.deposits[id].amount.valid() && 0
                <= self.deposits[id].amount.units()
        &&& disputed_total(self.deposits) <= self.held.units()
        &&& self.available.sum(self.held) is Some
    }

    /// Whether the deposit `id` is on record and under dispute.
    pub open spec fn is_disputed(self, id: u32) -> bool {
        self.deposits.contains_key(id) && self.deposits[id].disputed
    }

    /// The deposits with the record of deposit `id` marked as given.
    pub open spec fn mark(self, id: u32, disputed: bool) -> Map<u32, DepositState> {
        self.deposits.insert(id, DepositState { amount: self.deposits[id].amount, disputed })
    }

    /// The account with the balances, deposits and lock given, if both
    /// balances and their total can be had; the account as it is, if not.
    pub open spec fn settle(
        self,
        available: Option<AmountView>,
        held: Option<AmountView>,
        deposits: Map<u32, DepositState>,
        locked: bool,
    ) -> AccountState {
        if available is Some && held is Some && available->0.sum(held->0) is Some {
            AccountState { deposits, available: available->0, held: held->0, locked, ..self }
        } else {
            self
        }
    }

    /// A deposit of `amount` under transaction `id`. A negative amount is
    /// ignored, and so is one with which the available funds, or the total,
    /// cannot be had exactly. Any other is recorded, replacing any record
    /// under the same id, and added to the available funds.
    pub open spec fn deposit(self, id: u32, amount: AmountView) -> AccountState {
        if amount.units() < 0 {
            self
        } else {
            self.settle(
                self.available.sum(amount),
                Some(self.held),
                self.deposits.insert(id, DepositState { amount, disputed: false }),
                self.locked,
            )
        }
    }

    /// A withdrawal of `amount`. Ignored on a locked account, for a negative
    /// amount, for more than is available, and where what is left cannot be
    /// had exactly. Otherwise the amount is taken from the available funds.
    pub open spec fn withdraw(self, amount: AmountView) -> AccountState {
        if self.locked || amount.units() < 0 || self.available.units() < amount.units() {
            self
        } else {
            self.settle(
                self.available.difference(amount),
                Some(self.held),
                self.deposits,
                self.locked,
            )
        }
    }

    /// A dispute of deposit `id`. Ignored if there is no such deposit, if it
    /// is already disputed, if less than its amount is available, or if the
    /// new balances cannot be had exactly. Otherwise the amount moves from
    /// available to held.
    pub open spec fn dispute(self, id: u32) -> AccountState {
        if !self.deposits.contains_key(id) || self.deposits[id].disputed || self.available.units()
            < self.deposits[id].amount.units() {
            self
        } else {
            self.settle(
                self.available.difference(self.deposits[id].amount),
                self.held.sum(self.deposits[id].amount),
                self.mark(id, true),
                self.locked,
            )
        }
    }

    /// The resolution of the dispute of deposit `id`. Ignored unless that
    /// deposit is under dispute and the new balances can be had exactly.
    /// Otherwise the amount moves back from held to available.
    pub open spec fn resolve(self, id: u32) -> AccountState {
        if !self.is_disputed(id) {
            self
        } else {
            self.settle(
                self.available.sum(self.deposits[id].amount),
                self.held.difference(self.deposits[id].amount),
                self.mark(id, false),
                self.locked,
            )
        }
    }

    /// A chargeback of deposit `id`. Ignored unless that deposit is under
    /// dispute and the new balance can be had exactly. Otherwise the dispute
    /// is closed, the amount leaves the held funds for good, and the account
    /// is locked.
    pub open spec fn chargeback(self, id: u32) -> AccountState {
        if !self.is_disputed(id) {
            self
        } else {
            self.settle(
                Some(self.available),
                self.held.difference(self.deposits[id].amount),
                self.mark(id, false),
                true,
            )
        }
    }

    /// The account after one transaction. A transaction for another client
    /// is ignored.
    pub open spec fn apply(self, tx: Transaction) -> AccountState {
        if tx.client_id != self.id {
            self
        } else {
            match tx.tx_type {
                TransactionType::Deposit(amount) => self.deposit(tx.txid.0, amount@),
                TransactionType::Withdrawal(amount) => self.withdraw(amount@),
                TransactionType::Dispute => self.dispute(tx.txid.0),
                TransactionType::Resolve => self.resolve(tx.txid.0),
                TransactionType::Chargeback => self.chargeback(tx.txid.0),
            }
        }
    }

    /// The account after a sequence of transactions, applied in order.
    pub open spec fn apply_all(self, txs: Seq<Transaction>) -> AccountState
        decreases txs.len(),
    {
        if txs.len() == 0 {
            self
        } else {
            self.apply_all(txs.drop_last()).apply(txs.last())
        }
    }

    /// What a snapshot of a valid account reports: the total is the sum of
    /// the available and the held funds.
    pub open spec fn snapshot(self) -> Balances {
        Balances {
            client: self.id,
            available: self.available,
            held: self.held,
            total: self.available.sum(self.held)->0,
            locked: self.locked,
        }
    }
}

/// Replacing the record of one deposit changes the sum of the disputed
/// amounts below `n` by the change of that deposit's share, if its id is
/// below `n`, and not at all otherwise.
pub proof fn lemma_disputed_below_insert(
    deposits: Map<u32, DepositState>,
    id: u32,
    record: DepositState,
    n: nat,
)
    requires
        n <= 0x1_0000_0000,
    ensures
        disputed_below(deposits.insert(id, record), n) == disputed_below(deposits, n) + if id < n {
            disputed_amount(deposits.insert(id, record), id) - disputed_amount(deposits, id)
        } else {
            0
        },
    decreases n,
{
    if n > 0 {
        lemma_disputed_below_insert(deposits, id, record, (n - 1) as nat);
    }
}

/// Replacing the record of one deposit changes the sum of all disputed
/// amounts by the change of that deposit's share.
pub proof fn lemma_disputed_total_insert(
    deposits: Map<u32, DepositState>,
    id: u32,
    record: DepositState,
)
    ensures
        disputed_total(deposits.insert(id, record)) == disputed_total(deposits) + (if record.disputed {
            record.amount.units()
        } else {
            0
        }) - disputed_amount(deposits, id),
{
    lemma_disputed_below_insert(deposits, id, record, 0x1_0000_0000);
}

/// Where no deposit is negative, no sum of disputed amounts is.
pub proof fn lemma_disputed_below_nonnegative(deposits: Map<u32, DepositState>, n: nat)
    requires
        forall|id: u32| #[trigger] deposits.contains_key(id) ==> 0 <= deposits[id].amount.units(),
    ensures
        0 <= disputed_below(deposits, n),
    decreases n,
{
    if n > 0 {
        lemma_disputed_below_nonnegative(deposits, (n - 1) as nat);
    }
}

/// Where no deposit is negative, a deposit's disputed amount is at most the
/// sum of all of them.
pub proof fn lemma_disputed_amount_le_total(deposits: Map<u32, DepositState>, id: u32)
    requires
        forall|k: u32| #[trigger] deposits.contains_key(k) ==> 0 <= deposits[k].amount.units(),
    ensures
        0 <= disputed_amount(deposits, id) <= disputed_total(deposits),
{
    let cleared = DepositState { amount: AmountView { mantissa: 0, scale: 0 }, disputed: false };
    let rest = deposits.insert(id, cleared);
    lemma_disputed_total_insert(deposits, id, cleared);
    assert(cleared.amount.units() == 0);
    lemma_disputed_below_nonnegative(rest, 0x1_0000_0000);
}

/// The held funds of a valid account cover each deposit under dispute.
pub proof fn lemma_held_covers_disputed(s: AccountState, id: u32)
    requires
        s.valid(),
        s.is_disputed(id),
    ensures
        0 <= s.deposits[id].amount.units() <= s.held.units(),
{
    lemma_disputed_amount_le_total(s.deposits, id);
}

/// A deposit keeps a valid account valid.
pub proof fn lemma_deposit_valid(s: AccountState, id: u32, amount: AmountView)
    requires
        s.valid(),
        amount.valid(),
    ensures
        s.deposit(id, amount).valid(),
{
    if s.deposit(id, amount) != s {
        lemma_sum_exact(s.available, amount);
        lemma_disputed_total_insert(s.deposits, id, DepositState { amount, disputed: false });
    }
}

/// A withdrawal keeps a valid account valid.
pub proof fn lemma_withdraw_valid(s: AccountState, amount: AmountView)
    requires
        s.valid(),
        amount.valid(),
    ensures
        s.withdraw(amount).valid(),
{
    lemma_difference_exact(s.available, amount);
}

/// A dispute keeps a valid account valid.
pub proof fn lemma_dispute_valid(s: AccountState, id: u32)
    requires
        s.valid(),
    ensures
        s.dispute(id).valid(),
{
    if s.dispute(id) != s {
        let amount = s.deposits[id].amount;
        lemma_difference_exact(s.available, amount);
        lemma_sum_exact(s.held, amount);
        lemma_disputed_total_insert(s.deposits, id, DepositState { amount, disputed: true });
    }
}

/// A resolve keeps a valid account valid.
pub proof fn lemma_resolve_valid(s: AccountState, id: u32)
    requires
        s.valid(),
    ensures
        s.resolve(id).valid(),
{
    if s.resolve(id) != s {
        let amount = s.deposits[id].amount;
        lemma_held_covers_disputed(s, id);
        lemma_sum_exact(s.available, amount);
        lemma_difference_exact(s.held, amount);
        lemma_disputed_total_insert(s.deposits, id, DepositState { amount, disputed: false });
    }
}

/// A chargeback keeps a valid account valid.
pub proof fn lemma_chargeback_valid(s: AccountState, id: u32)
    requires
        s.valid(),
    ensures
        s.chargeback(id).valid(),
{
    if s.chargeback(id) != s {
        let amount = s.deposits[id].amount;
        lemma_held_covers_disputed(s, id);
        lemma_difference_exact(s.held, amount);
        lemma_disputed_total_insert(s.deposits, id, DepositState { amount, disputed: false });
    }
}

/// Every transaction keeps a valid account valid.
pub proof fn lemma_apply_valid(s: AccountState, tx: Transaction)
    requires
        s.valid(),
        tx.wf(),
    ensures
        s.apply(tx).valid(),
{
    if tx.client_id == s.id {
        match tx.tx_type {
            TransactionType::Deposit(amount) => lemma_deposit_valid(s, tx.txid.0, amount@),
            TransactionType::Withdrawal(amount) => lemma_withdraw_valid(s, amount@),
            TransactionType::Dispute => lemma_dispute_valid(s, tx.txid.0),
            TransactionType::Resolve => lemma_resolve_valid(s, tx.txid.0),
            TransactionType::Chargeback => lemma_chargeback_valid(s, tx.txid.0),
        }
    }
}

/// Without deposits nothing is disputed.
pub proof fn lemma_disputed_below_empty(n: nat)
    ensures
        disputed_below(Map::empty(), n) == 0,
    decreases n,
{
    if n > 0 {
        lemma_disputed_below_empty((n - 1) as nat);
    }
}

/// A new account is valid.
pub proof fn lemma_new_valid(id: ClientId)
    ensures
        AccountState::new(id).valid(),
{
    lemma_disputed_below_empty(0x1_0000_0000);
}

/// All accounts, and the transaction ids seen so far.
pub struct LedgerState {
    /// The accounts, by client id.
    pub accounts: Map<u16, AccountState>,
    /// The ids of the transactions submitted so far.
    pub txids: Set<u32>,
}

impl LedgerState {
    /// The ledger before any transaction.
    pub open spec fn new() -> LedgerState {
        LedgerState { accounts: Map::empty(), txids: Set::empty() }
    }

    /// What holds of every ledger: each account is valid and is filed under
    /// its own client id.
    pub open spec fn valid(self) -> bool {
        forall|client: u16| #[trigger]
            self.accounts.contains_key(client) ==> self.accounts[client].valid()
                && self.accounts[client].id == ClientId(client)
    }

    /// Whether the ledger has not seen the id of `tx` yet.
    pub open spec fn admits(self, tx: Transaction) -> bool {
        !self.txids.contains(tx.txid.0)
    }

    /// The account of `client`: the one on file, or else a new one.
    pub open spec fn account(self, client: ClientId) -> AccountState {
        if self.accounts.contains_key(client.0) {
            self.accounts[client.0]
        } else {
            AccountState::new(client)
        }
    }

    /// The ledger after `tx` was submitted. A transaction whose id was seen
    /// before changes nothing. Any other has its id recorded and is applied
    /// to the account of its client, which is opened if need be.
    pub open spec fn submit(self, tx: Transaction) -> LedgerState {
        if !self.admits(tx) {
            self
        } else {
            LedgerState {
                accounts: self.accounts.insert(
                    tx.client_id.0,
                    self.account(tx.client_id).apply(tx),
                ),
                txids: self.txids.insert(tx.txid.0),
            }
        }
    }

    /// The ledger after a sequence of transactions, submitted in order.
    pub open spec fn submit_all(self, txs: Seq<Transaction>) -> LedgerState
        decreases txs.len(),
    {
        if txs.len() == 0 {
            self
        } else {
            self.submit_all(txs.drop_last()).submit(txs.last())
        }
    }

    /// Whether `snapshots` reports the accounts of the ledger: one snapshot
    /// for each account, in any order.
    pub open spec fn reported_by(self, snapshots: Seq<Balances>) -> bool {
        &&& snapshots.len() == self.accounts.len()
        &&& forall|client: u16| #[trigger]
            self.accounts.contains_key(client) ==> snapshots.contains(
                self.accounts[client].snapshot(),
            )
        &&& forall|i: int|
            0 <= i < snapshots.len() ==> self.accounts.contains_key(
                (#[trigger] snapshots[i]).client.0,
            ) && snapshots[i] == self.accounts[snapshots[i].client.0].snapshot()
        &&& forall|i: int, j: int|
            0 <= i < j < snapshots.len() ==> (#[trigger] snapshots[i]).client != (
            #[trigger] snapshots[j]).client
    }
}

/// Submitting a transaction keeps a valid ledger valid.
pub proof fn lemma_submit_valid(s: LedgerState, tx: Transaction)
    requires
        s.valid(),
        tx.wf(),
    ensures
        s.submit(tx).valid(),
{
    if s.admits(tx) {
        lemma_new_valid(tx.client_id);
        lemma_apply_valid(s.account(tx.client_id), tx);
    }
}

} // verus!
