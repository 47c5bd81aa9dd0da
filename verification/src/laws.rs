//! What holds of accounts and of the ledger whatever the transactions are.

use vstd::prelude::*;

use crate::amount::{
    lemma_difference_exact, lemma_small_difference_is_had, lemma_small_sum_is_had, lemma_sum_exact,
    MAX_MANTISSA,
};
use crate::state::{
    lemma_apply_valid, lemma_held_covers_disputed, lemma_new_valid, lemma_submit_valid,
    AccountState, LedgerState,
};
use crate::amount::AmountView;
use crate::{ClientId, Transaction};

verus! {

/// Whether each transaction of the sequence is well formed.
pub open spec fn all_wf(txs: Seq<Transaction>) -> bool {
    forall|i: int| 0 <= i < txs.len() ==> (#[trigger] txs[i]).wf()
}

/// Whatever transactions a valid account goes through, it stays valid:
/// after each of them neither the available nor the held funds are negative.
pub proof fn lemma_balances_never_negative(s: AccountState, txs: Seq<Transaction>)
    requires
        s.valid(),
        all_wf(txs),
    ensures
        s.apply_all(txs).valid(),
        s.apply_all(txs).available.units() >= 0,
        s.apply_all(txs).held.units() >= 0,
    decreases txs.len(),
{
    if txs.len() > 0 {
        lemma_balances_never_negative(s, txs.drop_last());
        lemma_apply_valid(s.apply_all(txs.drop_last()), txs.last());
    }
}

/// Whatever transactions a new account goes through, neither its available
/// nor its held funds are ever negative.
pub proof fn lemma_new_account_never_negative(id: ClientId, txs: Seq<Transaction>)
    requires
        all_wf(txs),
    ensures
        AccountState::new(id).apply_all(txs).available.units() >= 0,
        AccountState::new(id).apply_all(txs).held.units() >= 0,
{
    lemma_new_valid(id);
    lemma_balances_never_negative(AccountState::new(id), txs);
}

/// Whatever transactions are submitted to a valid ledger, it stays valid: no
/// account in it has negative available or held funds.
pub proof fn lemma_ledger_never_negative(s: LedgerState, txs: Seq<Transaction>)
    requires
        s.valid(),
        all_wf(txs),
    ensures
        s.submit_all(txs).valid(),
        forall|client: u16| #[trigger]
            s.submit_all(txs).accounts.contains_key(client) ==> s.submit_all(
                txs,
            ).accounts[client].available.units() >= 0 && s.submit_all(
                txs,
            ).accounts[client].held.units() >= 0,
    decreases txs.len(),
{
    if txs.len() > 0 {
        lemma_ledger_never_negative(s, txs.drop_last());
        lemma_submit_valid(s.submit_all(txs.drop_last()), txs.last());
    }
}

/// In a valid account whose balances together stay below 2^96
/// ten-thousandths, a dispute of a deposit that is not already under
/// dispute, followed at once by a resolve of the same deposit, restores the
/// available and the held funds, and leaves the deposits and the lock as
/// they were.
pub proof fn lemma_dispute_then_resolve_restores(s: AccountState, id: u32)
    requires
        s.valid(),
        !s.is_disputed(id),
        s.available.units() + s.held.units() <= MAX_MANTISSA,
    ensures
        s.dispute(id).resolve(id).available.units() == s.available.units(),
        s.dispute(id).resolve(id).held.units() == s.held.units(),
        s.dispute(id).resolve(id).deposits == s.deposits,
        s.dispute(id).resolve(id).locked == s.locked,
{
    let disputed = s.dispute(id);
    if disputed != s {
        let amount = s.deposits[id].amount;
        lemma_difference_exact(s.available, amount);
        lemma_sum_exact(s.held, amount);
        lemma_small_sum_is_had(disputed.available, amount);
        lemma_small_difference_is_had(disputed.held, amount);
        lemma_sum_exact(disputed.available, amount);
        lemma_difference_exact(disputed.held, amount);
        let available = disputed.available.sum(amount)->0;
        let held = disputed.held.difference(amount)->0;
        lemma_small_sum_is_had(available, held);
        assert(disputed.resolve(id).deposits =~= s.deposits);
    }
}

/// Neither a dispute nor a resolve changes what the balances of a valid
/// account add up to.
pub proof fn lemma_dispute_and_resolve_keep_total(s: AccountState, id: u32)
    requires
        s.valid(),
    ensures
        s.dispute(id).available.units() + s.dispute(id).held.units() == s.available.units()
            + s.held.units(),
        s.resolve(id).available.units() + s.resolve(id).held.units() == s.available.units()
            + s.held.units(),
{
    if s.deposits.contains_key(id) {
        let amount = s.deposits[id].amount;
        lemma_difference_exact(s.available, amount);
        lemma_sum_exact(s.held, amount);
        lemma_sum_exact(s.available, amount);
        lemma_difference_exact(s.held, amount);
    }
}

/// In a valid account whose balances together stay below 2^96
/// ten-thousandths, a deposit that would keep them there is credited, a
/// withdrawal of no more than is available is debited, and a resolve or
/// chargeback of a deposit under dispute, or a dispute of one that is
/// covered, is carried out.
pub proof fn lemma_room_suffices(s: AccountState, id: u32, amount: AmountView)
    requires
        s.valid(),
        amount.valid(),
        0 <= amount.units(),
        s.available.units() + s.held.units() <= MAX_MANTISSA,
    ensures
        s.available.units() + s.held.units() + amount.units() <= MAX_MANTISSA ==> s.deposit(
            id,
            amount,
        ).available.units() == s.available.units() + amount.units() && s.deposit(
            id,
            amount,
        ).deposits.contains_key(id),
        !s.locked && amount.units() <= s.available.units() ==> s.withdraw(
            amount,
        ).available.units() == s.available.units() - amount.units(),
        s.deposits.contains_key(id) && !s.deposits[id].disputed && s.deposits[id].amount.units()
            <= s.available.units() ==> s.dispute(id).is_disputed(id),
        s.is_disputed(id) ==> !s.resolve(id).is_disputed(id) && !s.chargeback(id).is_disputed(id)
            && s.chargeback(id).locked,
{
    if s.available.units() + s.held.units() + amount.units() <= MAX_MANTISSA {
        lemma_small_sum_is_had(s.available, amount);
        lemma_sum_exact(s.available, amount);
        lemma_small_sum_is_had(s.available.sum(amount)->0, s.held);
    }
    if amount.units() <= s.available.units() {
        lemma_small_difference_is_had(s.available, amount);
        lemma_difference_exact(s.available, amount);
        lemma_small_sum_is_had(s.available.difference(amount)->0, s.held);
    }
    if s.deposits.contains_key(id) {
        let recorded = s.deposits[id].amount;
        if !s.deposits[id].disputed && recorded.units() <= s.available.units() {
            lemma_small_difference_is_had(s.available, recorded);
            lemma_difference_exact(s.available, recorded);
            lemma_small_sum_is_had(s.held, recorded);
            lemma_sum_exact(s.held, recorded);
            lemma_small_sum_is_had(
                s.available.difference(recorded)->0,
                s.held.sum(recorded)->0,
            );
        }
        if s.deposits[id].disputed {
            lemma_held_covers_disputed(s, id);
            lemma_small_sum_is_had(s.available, recorded);
            lemma_sum_exact(s.available, recorded);
            lemma_small_difference_is_had(s.held, recorded);
            lemma_difference_exact(s.held, recorded);
            lemma_small_sum_is_had(
                s.available.sum(recorded)->0,
                s.held.difference(recorded)->0,
            );
            lemma_small_sum_is_had(s.available, s.held.difference(recorded)->0);
        }
    }
}

/// A locked account stays locked whatever transactions follow, and a
/// withdrawal from it changes nothing, whatever is available.
pub proof fn lemma_locked_is_permanent(
    s: AccountState,
    txs: Seq<Transaction>,
    amount: AmountView,
)
    requires
        s.locked,
    ensures
        s.apply_all(txs).locked,
        s.apply_all(txs).withdraw(amount) == s.apply_all(txs),
    decreases txs.len(),
{
    if txs.len() > 0 {
        lemma_locked_is_permanent(s, txs.drop_last(), amount);
    }
}

/// A chargeback that is carried out locks the account for good: whatever
/// transactions follow, the account is locked and a withdrawal from it
/// changes nothing.
pub proof fn lemma_chargeback_is_irreversible(
    s: AccountState,
    id: u32,
    txs: Seq<Transaction>,
    amount: AmountView,
)
    requires
        s.chargeback(id) != s,
    ensures
        s.chargeback(id).locked,
        s.chargeback(id).apply_all(txs).locked,
        s.chargeback(id).apply_all(txs).withdraw(amount) == s.chargeback(id).apply_all(txs),
{
    lemma_locked_is_permanent(s.chargeback(id), txs, amount);
}

/// A transaction id that the ledger has seen stays seen.
pub proof fn lemma_seen_stays_seen(s: LedgerState, txs: Seq<Transaction>, txid: u32)
    requires
        s.txids.contains(txid),
    ensures
        s.submit_all(txs).txids.contains(txid),
    decreases txs.len(),
{
    if txs.len() > 0 {
        lemma_seen_stays_seen(s, txs.drop_last(), txid);
    }
}

/// Of two transactions with the same id, for whatever clients and with
/// whatever submitted in between, the second is not admitted and changes
/// nothing. The first, if its id is new, is admitted and applied to the
/// account of its client.
pub proof fn lemma_same_id_applies_once(
    s: LedgerState,
    first: Transaction,
    between: Seq<Transaction>,
    second: Transaction,
)
    requires
        first.txid == second.txid,
    ensures
        s.admits(first) ==> s.submit(first).accounts[first.client_id.0] == s.account(
            first.client_id,
        ).apply(first),
        !s.submit(first).submit_all(between).admits(second),
        s.submit(first).submit_all(between).submit(second) == s.submit(first).submit_all(between),
{
    lemma_seen_stays_seen(s.submit(first), between, first.txid.0);
}

/// Submitting a transaction leaves every account on file, and changes none
/// but that of the transaction's client.
pub proof fn lemma_submit_touches_one_account(s: LedgerState, tx: Transaction, client: u16)
    ensures
        s.accounts.contains_key(client) ==> s.submit(tx).accounts.contains_key(client),
        client != tx.client_id.0 ==> (s.submit(tx).accounts.contains_key(client)
            <==> s.accounts.contains_key(client)),
        client != tx.client_id.0 && s.accounts.contains_key(client) ==> s.submit(
            tx,
        ).accounts[client] == s.accounts[client],
        s.admits(tx) ==> s.submit(tx).accounts.contains_key(tx.client_id.0),
{
}

/// Two transactions with different ids for different clients can be
/// submitted in either order: the ledger ends up the same.
pub proof fn lemma_different_clients_commute(s: LedgerState, a: Transaction, b: Transaction)
    requires
        a.client_id != b.client_id,
        a.txid != b.txid,
    ensures
        s.submit(a).submit(b) == s.submit(b).submit(a),
{
    let ab = s.submit(a).submit(b);
    let ba = s.submit(b).submit(a);
    assert(ab.txids =~= ba.txids);
    assert(ab.accounts =~= ba.accounts);
}

/// A dispute of an id under which nothing was deposited changes nothing.
pub proof fn lemma_dispute_of_unknown_id_changes_nothing(s: AccountState, id: u32)
    requires
        !s.deposits.contains_key(id),
    ensures
        s.dispute(id) == s,
{
}

/// A second dispute of the same deposit, right after the first, changes
/// nothing.
pub proof fn lemma_second_dispute_changes_nothing(s: AccountState, id: u32)
    ensures
        s.dispute(id).dispute(id) == s.dispute(id),
{
}

} // verus!
