//! What holds of the ledger whatever the records are.

use vstd::prelude::*;
use crate::account::{Account, AccountOutput};
use crate::ledger::{Ledger, Outcome, Rejection};
use crate::transaction::{Transaction, TransactionInput, TransactionState, TransactionType};

verus! {

/// In a well-formed ledger no account has a negative balance.
pub proof fn balances_never_negative(ledger: Ledger, client: u16)
    requires
        ledger.wf(),
        ledger.accounts.contains_key(client),
    ensures
        ledger.accounts[client].available@.mantissa >= 0,
        ledger.accounts[client].held@.mantissa >= 0,
{
}

/// The row of an account shows its balances, and its total is their sum.
pub proof fn row_total_is_sum(account: Account, row: AccountOutput)
    requires
        account.output() == Some(row),
    ensures
        row.client == account.client_id,
        row.available == account.available,
        row.held == account.held,
        row.locked == account.locked,
        Some(row.total) == row.available.plus(row.held),
{
}

/// In every row of a snapshot the total is the sum of available and held.
pub proof fn snapshot_totals_are_sums(ledger: Ledger, rows: Seq<AccountOutput>, i: int)
    requires
        ledger.snapshot_is(rows),
        0 <= i < rows.len(),
    ensures
        Some(rows[i].total) == rows[i].available.plus(rows[i].held),
{
    row_total_is_sum(ledger.accounts[rows[i].client], rows[i]);
}

/// A snapshot has one row for each account and no other: two snapshots of
/// one ledger have the same clients in the same places.
pub proof fn snapshot_is_unique(ledger: Ledger, first: Seq<AccountOutput>, second: Seq<AccountOutput>)
    requires
        ledger.snapshot_is(first),
        ledger.snapshot_is(second),
    ensures
        first == second,
    decreases first.len(),
{
    if first.len() == 0 {
        if second.len() > 0 {
            assert(ledger.accounts.contains_key(second[0].client));
        }
        assert(first =~= second);
    } else {
        let top = first.last();
        assert(ledger.accounts.contains_key(top.client));
        let k = choose|k: int| 0 <= k < second.len() && (#[trigger] second[k]).client == top.client;
        // No row of `second` stands behind that of the greatest client.
        if k < second.len() - 1 {
            let behind = second[second.len() - 1];
            assert(ledger.accounts.contains_key(behind.client));
            let j = choose|j: int| 0 <= j < first.len() && (#[trigger] first[j]).client == behind.client;
            assert(first[j].client <= top.client);
            assert(second[k].client < behind.client);
        }
        let rest = Ledger { accounts: ledger.accounts.remove(top.client), ..ledger };
        let f = first.drop_last();
        let s = second.drop_last();
        assert(rest.snapshot_is(f)) by {
            assert forall|c: u16| #[trigger] rest.accounts.contains_key(c) implies exists|i: int|
                0 <= i < f.len() && (#[trigger] f[i]).client == c by {
                assert(ledger.accounts.contains_key(c));
                let i = choose|i: int| 0 <= i < first.len() && (#[trigger] first[i]).client == c;
                assert(f[i] == first[i]);
            }
            assert forall|i: int| 0 <= i < f.len() implies rest.accounts.contains_key(
                (#[trigger] f[i]).client,
            ) && rest.accounts[f[i].client].output() == Some(f[i]) by {
                assert(f[i] == first[i]);
                assert(first[i].client < first[first.len() - 1].client);
            }
        }
        assert(rest.snapshot_is(s)) by {
            assert forall|c: u16| #[trigger] rest.accounts.contains_key(c) implies exists|i: int|
                0 <= i < s.len() && (#[trigger] s[i]).client == c by {
                assert(ledger.accounts.contains_key(c));
                let i = choose|i: int| 0 <= i < second.len() && (#[trigger] second[i]).client == c;
                assert(s[i] == second[i]);
            }
            assert forall|i: int| 0 <= i < s.len() implies rest.accounts.contains_key(
                (#[trigger] s[i]).client,
            ) && rest.accounts[s[i].client].output() == Some(s[i]) by {
                assert(s[i] == second[i]);
                assert(second[i].client < second[second.len() - 1].client);
            }
        }
        snapshot_is_unique(rest, f, s);
        assert(first =~= f.push(top));
        assert(second[k] == top);
        assert(second =~= s.push(top));
    }
}

/// A dispute, resolve or chargeback keeps every stored transaction, and
/// changes at most the state of the one it refers to, by a move that the
/// life-cycle allows.
pub proof fn states_move_along_the_life_cycle(ledger: Ledger, record: TransactionInput, tx: u32)
    requires
        record.transaction_type != TransactionType::Deposit,
        ledger.transactions.contains_key(tx),
    ensures
        ledger.apply(record).0.transactions.contains_key(tx),
        ledger.apply(record).0.transactions[tx] == ledger.transactions[tx] || (tx == record.tx
            && ledger.apply(record).0.transactions[tx] == ledger.transactions[tx].with_state(
            ledger.apply(record).0.transactions[tx].state,
        ) && ledger.transactions[tx].state.may_become(
            ledger.apply(record).0.transactions[tx].state,
        )),
{
}

/// Held funds are released or charged back, never both: after a resolve
/// that was applied, a chargeback of the same transaction is rejected and
/// changes nothing.
pub proof fn resolved_cannot_be_charged_back(
    ledger: Ledger,
    resolve: TransactionInput,
    chargeback: TransactionInput,
)
    requires
        resolve.tx == chargeback.tx,
        ledger.resolve(resolve).1 == Outcome::Applied,
    ensures
        ledger.resolve(resolve).0.chargeback(chargeback).0 == ledger.resolve(resolve).0,
        ledger.resolve(resolve).0.chargeback(chargeback).1 is Rejected,
{
}

/// Held funds are released or charged back, never both: after a
/// chargeback that was applied, a resolve of the same transaction is
/// rejected and changes nothing.
pub proof fn charged_back_cannot_be_resolved(
    ledger: Ledger,
    chargeback: TransactionInput,
    resolve: TransactionInput,
)
    requires
        resolve.tx == chargeback.tx,
        ledger.chargeback(chargeback).1 == Outcome::Applied,
    ensures
        ledger.chargeback(chargeback).0.resolve(resolve).0 == ledger.chargeback(chargeback).0,
        ledger.chargeback(chargeback).0.resolve(resolve).1 is Rejected,
{
}

/// A resolve undoes a dispute as far as the ledger itself decides: the
/// transactions are as they were before the dispute, no account but that of
/// the client has changed, and that account has its lock as before. Its
/// balances are what the decimal arithmetic makes of taking the amount away
/// and adding it again.
pub proof fn resolve_undoes_dispute(
    ledger: Ledger,
    dispute: TransactionInput,
    resolve: TransactionInput,
    other: u16,
)
    requires
        resolve.tx == dispute.tx,
        resolve.client == dispute.client,
        other != dispute.client,
        ledger.dispute(dispute).1 == Outcome::Applied,
        ledger.dispute(dispute).0.resolve(resolve).1 == Outcome::Applied,
    ensures
        ledger.dispute(dispute).0.resolve(resolve).0.transactions == ledger.transactions,
        ledger.dispute(dispute).0.resolve(resolve).0.accounts.dom() == ledger.accounts.dom(),
        ledger.accounts.contains_key(other) ==> ledger.dispute(dispute).0.resolve(
            resolve,
        ).0.accounts[other] == ledger.accounts[other],
        ledger.accounts.contains_key(dispute.client),
        ledger.dispute(dispute).0.resolve(resolve).0.accounts[dispute.client].locked
            == ledger.accounts[dispute.client].locked,
        ledger.dispute(dispute).0.resolve(resolve).0.accounts[dispute.client].client_id
            == ledger.accounts[dispute.client].client_id,
        ledger.accounts[dispute.client].available.minus(ledger.transactions[dispute.tx].amount)
            matches Some(less) && Some(
            ledger.dispute(dispute).0.resolve(resolve).0.accounts[dispute.client].available,
        ) == less.plus(ledger.transactions[dispute.tx].amount),
        ledger.accounts[dispute.client].held.plus(ledger.transactions[dispute.tx].amount)
            matches Some(more) && Some(
            ledger.dispute(dispute).0.resolve(resolve).0.accounts[dispute.client].held,
        ) == more.minus(ledger.transactions[dispute.tx].amount),
{
    let after = ledger.dispute(dispute).0.resolve(resolve).0;
    assert(after.transactions =~= ledger.transactions);
    assert(after.accounts.dom() =~= ledger.accounts.dom());
}

/// A dispute, resolve or chargeback of a transaction that is charged back
/// is rejected and changes nothing.
pub proof fn charged_back_is_final(ledger: Ledger, record: TransactionInput)
    requires
        record.transaction_type != TransactionType::Deposit,
        record.transaction_type != TransactionType::Withdrawal,
        ledger.transactions.contains_key(record.tx),
        ledger.transactions[record.tx].state == TransactionState::ChargedBack,
    ensures
        ledger.apply(record).0 == ledger,
        ledger.apply(record).1 is Rejected,
{
}

/// A dispute of a transaction that is not stored, is not a deposit or
/// belongs to another client is rejected and changes nothing.
pub proof fn stray_dispute_changes_nothing(ledger: Ledger, record: TransactionInput)
    requires
        record.transaction_type == TransactionType::Dispute,
        !ledger.transactions.contains_key(record.tx)
            || ledger.transactions[record.tx].transaction_type != TransactionType::Deposit
            || ledger.transactions[record.tx].client_id != record.client,
    ensures
        ledger.apply(record).0 == ledger,
        ledger.apply(record).1 is Rejected,
{
}

/// A dispute, resolve or chargeback that is rejected changes nothing.
pub proof fn rejected_reference_changes_nothing(ledger: Ledger, record: TransactionInput)
    requires
        record.transaction_type != TransactionType::Deposit,
        record.transaction_type != TransactionType::Withdrawal,
        ledger.apply(record).1 is Rejected,
    ensures
        ledger.apply(record).0 == ledger,
{
}

/// No record removes an account.
pub proof fn accounts_are_kept(ledger: Ledger, record: TransactionInput, client: u16)
    requires
        ledger.accounts.contains_key(client),
    ensures
        ledger.apply(record).0.accounts.contains_key(client),
{
}

/// Only the account of the record's client can change or come into being.
pub proof fn other_clients_are_untouched(ledger: Ledger, record: TransactionInput, client: u16)
    requires
        client != record.client,
    ensures
        ledger.apply(record).0.accounts.contains_key(client) == ledger.accounts.contains_key(client),
        ledger.accounts.contains_key(client) ==> ledger.apply(record).0.accounts[client]
            == ledger.accounts[client],
{
}

/// Only a deposit that was applied stores a transaction: a withdrawal
/// stores none, and neither does a deposit that was rejected.
pub proof fn only_applied_deposits_are_stored(ledger: Ledger, record: TransactionInput)
    requires
        record.transaction_type == TransactionType::Withdrawal || (record.transaction_type
            == TransactionType::Deposit && ledger.apply(record).1 is Rejected),
    ensures
        ledger.apply(record).0.transactions == ledger.transactions,
{
}

/// A deposit that was applied is stored under its id, for its client, with
/// its amount, in state `Normal`.
pub proof fn applied_deposit_is_stored(ledger: Ledger, record: TransactionInput)
    requires
        record.transaction_type == TransactionType::Deposit,
        ledger.apply(record).1 == Outcome::Applied,
    ensures
        record.amount is Some,
        ledger.apply(record).0.transactions.contains_key(record.tx),
        ledger.apply(record).0.transactions[record.tx] == Transaction::fresh(
            record.tx,
            record.client,
            TransactionType::Deposit,
            record.amount->0,
        ),
{
}

/// In a well-formed ledger every stored transaction is a deposit whose
/// client has an account, so no record is rejected for want of either.
pub proof fn stored_deposits_have_accounts(ledger: Ledger, record: TransactionInput)
    requires
        ledger.wf(),
    ensures
        ledger.apply(record).1 != Outcome::Rejected(Rejection::NonDepositTransaction),
        ledger.apply(record).1 != Outcome::Rejected(Rejection::AccountNotFound),
{
}

/// Once an account is locked it stays locked.
pub proof fn lock_is_kept(ledger: Ledger, record: TransactionInput, client: u16)
    requires
        ledger.accounts.contains_key(client),
        ledger.accounts[client].locked,
    ensures
        ledger.apply(record).0.accounts.contains_key(client),
        ledger.apply(record).0.accounts[client].locked,
{
}

/// A locked account takes no deposit and gives no withdrawal.
pub proof fn locked_account_is_closed(ledger: Ledger, record: TransactionInput)
    requires
        record.transaction_type == TransactionType::Deposit || record.transaction_type
            == TransactionType::Withdrawal,
        ledger.accounts.contains_key(record.client),
        ledger.accounts[record.client].locked,
    ensures
        ledger.apply(record).0 == ledger,
        ledger.apply(record).1 is Rejected,
{
}

/// With no record applied the ledger is as it was, and the empty ledger has
/// the empty snapshot and no other.
pub proof fn nothing_in_nothing_out(ledger: Ledger, rows: Seq<AccountOutput>)
    ensures
        ledger.apply_all(Seq::empty()) == ledger,
        Ledger::empty().snapshot_is(Seq::empty()),
        Ledger::empty().snapshot_is(rows) ==> rows.len() == 0,
{
    if Ledger::empty().snapshot_is(rows) && rows.len() > 0 {
        assert(Ledger::empty().accounts.contains_key(rows[0].client));
    }
}

} // verus!
