//! The engine: it applies records to the two stores.

use vstd::prelude::*;
use dashmap::DashMap;
use crate::account::{Account, AccountOutput};
use crate::amount::Amount;
use crate::ledger::{Ledger, Outcome, Rejection};
use crate::store::{
    account_entries, account_list, account_or_insert, empty_accounts, empty_transactions,
    enumerates, find_account, find_transaction, put_account, put_transaction,
    transaction_entries,
};
use crate::transaction::{Transaction, TransactionInput, TransactionState, TransactionType};

verus! {

/// The ledger engine. It owns the account store and the transaction store;
/// a record is applied through an exclusive borrow, so the records of one
/// client are applied one after another, in the order they are handed in.
pub struct TransactionProcessor {
    accounts: DashMap<u16, Account>,
    transactions: DashMap<u32, Transaction>,
}

impl View for TransactionProcessor {
    type V = Ledger;

    closed spec fn view(&self) -> Ledger {
        Ledger {
            accounts: account_entries(self.accounts),
            transactions: transaction_entries(self.transactions),
        }
    }
}

impl TransactionProcessor {
    /// An engine with no accounts and no transactions.
    pub fn new() -> (r: TransactionProcessor)
        ensures
            r@ == Ledger::empty(),
            r@.wf(),
    {
        TransactionProcessor { accounts: empty_accounts(), transactions: empty_transactions() }
    }

    /// The account of `client`, if it has one.
    pub fn account(&self, client: u16) -> (r: Option<Account>)
        ensures
            r == if self@.accounts.contains_key(client) {
                Some(self@.accounts[client])
            } else {
                None
            },
    {
        find_account(&self.accounts, client)
    }

    /// The transaction stored under `tx`, if there is one.
    pub fn transaction(&self, tx: u32) -> (r: Option<Transaction>)
        ensures
            r == if self@.transactions.contains_key(tx) {
                Some(self@.transactions[tx])
            } else {
                None
            },
    {
        find_transaction(&self.transactions, tx)
    }

    /// Applies one record. A record that cannot be applied is rejected with
    /// the reason; what it may still have done is to open the account of a
    /// client that deposits or withdraws for the first time. Funds that are
    /// there can always be withdrawn or charged back: neither is ever
    /// rejected for an overflow.
    pub fn process_transaction(&mut self, record: TransactionInput) -> (out: Outcome)
        ensures
            (final(self)@, out) == old(self)@.apply(record),
            old(self)@.wf() ==> final(self)@.wf(),
            record.transaction_type == TransactionType::Withdrawal ==> out != Outcome::Rejected(
                Rejection::AmountOverflow,
            ),
            old(self)@.wf() && record.transaction_type == TransactionType::Chargeback ==> out
                != Outcome::Rejected(Rejection::AmountOverflow),
    {
        match record.transaction_type {
            TransactionType::Deposit => self.handle_deposit(record),
            TransactionType::Withdrawal => self.handle_withdrawal(record),
            TransactionType::Dispute => self.handle_dispute(record),
            TransactionType::Resolve => self.handle_resolve(record),
            TransactionType::Chargeback => self.handle_chargeback(record),
        }
    }

    /// Applies the records in the order given and reports what became of
    /// each.
    pub fn process_records(&mut self, records: &Vec<TransactionInput>) -> (outcomes: Vec<Outcome>)
        ensures
            final(self)@ == old(self)@.apply_all(records@),
            outcomes@.len() == records@.len(),
            forall|k: int|
                0 <= k < records@.len() ==> #[trigger] outcomes@[k] == old(self)@.apply_all(
                    records@.take(k),
                ).apply(records@[k]).1,
            old(self)@.wf() ==> final(self)@.wf(),
    {
        let ghost start = self@;
        let mut outcomes: Vec<Outcome> = Vec::new();
        let mut i: usize = 0;
        while i < records.len()
            invariant
                i <= records.len(),
                self@ == start.apply_all(records@.take(i as int)),
                outcomes@.len() == i,
                forall|k: int|
                    0 <= k < i ==> #[trigger] outcomes@[k] == start.apply_all(
                        records@.take(k),
                    ).apply(records@[k]).1,
                start.wf() ==> self@.wf(),
            decreases records.len() - i,
        {
            let out = self.process_transaction(records[i]);
            proof {
                assert(records@.take(i + 1).drop_last() =~= records@.take(i as int));
                assert(records@.take(i + 1).last() == records@[i as int]);
            }
            outcomes.push(out);
            i += 1;
        }
        proof {
            assert(records@.take(records@.len() as int) =~= records@);
        }
        outcomes
    }

    /// The snapshot: one row for each account, in ascending order of the
    /// clients. `None` where the total of some account overflows.
    pub fn output_accounts(&self) -> (r: Option<Vec<AccountOutput>>)
        ensures
            r is None <==> exists|c: u16| #[trigger]
                self@.accounts.contains_key(c) && self@.accounts[c].output() is None,
            r matches Some(rows) ==> (self@.wf() ==> self@.snapshot_is(rows@)),
    {
        let list = account_list(&self.accounts);
        let mut rows: Vec<AccountOutput> = Vec::new();
        let mut i: usize = 0;
        while i < list.len()
            invariant
                i <= list.len(),
                enumerates(self@.accounts, list@),
                self@.wf() ==> ascending(rows@),
                forall|j: int| 0 <= j < rows@.len() ==> row_of_listed(list@, i as int, #[trigger] rows@[j]),
                forall|p: int| 0 <= p < i ==> has_row(rows@, (#[trigger] list@[p]).1.client_id),
                forall|p: int| 0 <= p < i ==> (#[trigger] list@[p]).1.output() is Some,
            decreases list.len() - i,
        {
            let client = list[i].0;
            let account = list[i].1;
            assert(self@.accounts.contains_pair(list@[i as int].0, list@[i as int].1));
            let row = match account.to_output() {
                Some(row) => row,
                None => {
                    assert(self@.accounts.contains_key(client) && self@.accounts[client].output() is None);
                    return None;
                },
            };
            proof {
                if self@.wf() {
                    assert forall|j: int| 0 <= j < rows@.len() implies (#[trigger] rows@[j]).client
                        != row.client by {
                        assert(row_of_listed(list@, i as int, rows@[j]));
                        let p = choose|p: int|
                            0 <= p < i && (#[trigger] list@[p]).1.output() == Some(rows@[j]);
                        assert(self@.accounts.contains_pair(list@[p].0, list@[p].1));
                    }
                }
            }
            let ghost before = rows@;
            let pos = insert_in_order(&mut rows, row);
            proof {
                insert_index(before, pos as int, row);
                let after = rows@;
                assert forall|j: int| 0 <= j < after.len() implies row_of_listed(
                    list@,
                    i + 1,
                    #[trigger] after[j],
                ) by {
                    if j == pos {
                        assert(list@[i as int].1.output() == Some(row));
                    } else {
                        let oj = if j < pos { j } else { j - 1 };
                        assert(after[j] == before[oj]);
                        assert(row_of_listed(list@, i as int, before[oj]));
                        let p = choose|p: int|
                            0 <= p < i && (#[trigger] list@[p]).1.output() == Some(before[oj]);
                        assert(list@[p].1.output() == Some(after[j]));
                    }
                }
                assert forall|p: int| 0 <= p < i + 1 implies has_row(
                    after,
                    (#[trigger] list@[p]).1.client_id,
                ) by {
                    if p == i {
                        assert(after[pos as int].client == list@[p].1.client_id);
                    } else {
                        assert(has_row(before, list@[p].1.client_id));
                        let j = choose|j: int|
                            0 <= j < before.len() && (#[trigger] before[j]).client
                                == list@[p].1.client_id;
                        let nj = if j < pos { j } else { j + 1 };
                        assert(after[nj] == before[j]);
                    }
                }
            }
            i += 1;
        }
        proof {
            assert forall|c: u16| #[trigger] self@.accounts.contains_key(c) implies self@.accounts[c].output() is Some by {
                let p = choose|p: int| 0 <= p < list@.len() && (#[trigger] list@[p]).0 == c;
                assert(self@.accounts.contains_pair(list@[p].0, list@[p].1));
            }
            if self@.wf() {
                assert forall|j: int| 0 <= j < rows@.len() implies self@.accounts.contains_key(
                    (#[trigger] rows@[j]).client,
                ) && self@.accounts[rows@[j].client].output() == Some(rows@[j]) by {
                    assert(row_of_listed(list@, i as int, rows@[j]));
                    let p = choose|p: int|
                        0 <= p < i && (#[trigger] list@[p]).1.output() == Some(rows@[j]);
                    assert(self@.accounts.contains_pair(list@[p].0, list@[p].1));
                }
                assert forall|c: u16| #[trigger] self@.accounts.contains_key(c) implies exists|j: int|
                    0 <= j < rows@.len() && (#[trigger] rows@[j]).client == c by {
                    let p = choose|p: int| 0 <= p < list@.len() && (#[trigger] list@[p]).0 == c;
                    assert(self@.accounts.contains_pair(list@[p].0, list@[p].1));
                    assert(has_row(rows@, list@[p].1.client_id));
                }
            }
        }
        Some(rows)
    }

    fn usable_amount(record: &TransactionInput) -> (r: Result<Amount, Rejection>)
        ensures
            r == Ledger::usable_amount(*record),
    {
        match record.amount {
            None => Err(Rejection::MissingAmount),
            Some(amount) => if amount.is_positive() {
                Ok(amount)
            } else {
                Err(Rejection::NonPositiveAmount)
            },
        }
    }

    fn referenced(&self, record: &TransactionInput) -> (r: Result<Transaction, Rejection>)
        ensures
            r == self@.referenced(*record),
    {
        match find_transaction(&self.transactions, record.tx) {
            None => Err(Rejection::TransactionNotFound),
            Some(transaction) => if transaction.client_id != record.client {
                Err(Rejection::ClientMismatch)
            } else {
                Ok(transaction)
            },
        }
    }

    fn handle_deposit(&mut self, record: TransactionInput) -> (out: Outcome)
        ensures
            (final(self)@, out) == old(self)@.deposit(record),
            old(self)@.wf() ==> final(self)@.wf(),
    {
        let mut account = account_or_insert(&mut self.accounts, record.client);
        proof {
            Account::fresh_is_wf(record.client);
        }
        let amount = match Self::usable_amount(&record) {
            Ok(amount) => amount,
            Err(why) => {
                return Outcome::Rejected(why);
            },
        };
        if account.deposit(amount) {
            let transaction = Transaction::new(record.tx, record.client, TransactionType::Deposit, amount);
            put_account(&mut self.accounts, record.client, account);
            put_transaction(&mut self.transactions, transaction.tx_id, transaction);
            Outcome::Applied
        } else if account.locked {
            Outcome::Rejected(Rejection::AccountLocked)
        } else {
            Outcome::Rejected(Rejection::AmountOverflow)
        }
    }

    fn handle_withdrawal(&mut self, record: TransactionInput) -> (out: Outcome)
        ensures
            (final(self)@, out) == old(self)@.withdrawal(record),
            old(self)@.wf() ==> final(self)@.wf(),
            out != Outcome::Rejected(Rejection::AmountOverflow),
    {
        let mut account = account_or_insert(&mut self.accounts, record.client);
        proof {
            Account::fresh_is_wf(record.client);
        }
        let amount = match Self::usable_amount(&record) {
            Ok(amount) => amount,
            Err(why) => {
                return Outcome::Rejected(why);
            },
        };
        if account.withdraw(amount) {
            put_account(&mut self.accounts, record.client, account);
            Outcome::Applied
        } else if account.locked || account.available.lt(&amount) {
            Outcome::Rejected(Rejection::InsufficientFundsOrLocked)
        } else {
            Outcome::Rejected(Rejection::AmountOverflow)
        }
    }

    fn handle_dispute(&mut self, record: TransactionInput) -> (out: Outcome)
        ensures
            (final(self)@, out) == old(self)@.dispute(record),
            old(self)@.wf() ==> final(self)@.wf(),
    {
        let transaction = match self.referenced(&record) {
            Ok(transaction) => transaction,
            Err(why) => {
                return Outcome::Rejected(why);
            },
        };
        match transaction.transaction_type {
            TransactionType::Deposit => {},
            _ => {
                return Outcome::Rejected(Rejection::NonDepositTransaction);
            },
        }
        match transaction.state {
            TransactionState::Normal => {},
            _ => {
                return Outcome::Rejected(Rejection::InvalidState);
            },
        }
        let mut account = match find_account(&self.accounts, record.client) {
            Some(account) => account,
            None => {
                return Outcome::Rejected(Rejection::AccountNotFound);
            },
        };
        if account.hold_funds(transaction.amount) {
            put_account(&mut self.accounts, record.client, account);
            self.set_state(record.tx, transaction, TransactionState::UnderDispute);
            Outcome::Applied
        } else if account.available.lt(&transaction.amount) {
            Outcome::Rejected(Rejection::InsufficientAvailableFunds)
        } else {
            Outcome::Rejected(Rejection::AmountOverflow)
        }
    }

    fn handle_resolve(&mut self, record: TransactionInput) -> (out: Outcome)
        ensures
            (final(self)@, out) == old(self)@.resolve(record),
            old(self)@.wf() ==> final(self)@.wf(),
    {
        let transaction = match self.referenced(&record) {
            Ok(transaction) => transaction,
            Err(why) => {
                return Outcome::Rejected(why);
            },
        };
        match transaction.state {
            TransactionState::UnderDispute => {},
            _ => {
                return Outcome::Rejected(Rejection::InvalidState);
            },
        }
        let mut account = match find_account(&self.accounts, record.client) {
            Some(account) => account,
            None => {
                return Outcome::Rejected(Rejection::AccountNotFound);
            },
        };
        if account.release_funds(transaction.amount) {
            put_account(&mut self.accounts, record.client, account);
            self.set_state(record.tx, transaction, TransactionState::Normal);
            Outcome::Applied
        } else if account.held.lt(&transaction.amount) {
            Outcome::Rejected(Rejection::InsufficientHeldFunds)
        } else {
            Outcome::Rejected(Rejection::AmountOverflow)
        }
    }

    fn handle_chargeback(&mut self, record: TransactionInput) -> (out: Outcome)
        ensures
            (final(self)@, out) == old(self)@.chargeback(record),
            old(self)@.wf() ==> final(self)@.wf(),
            old(self)@.wf() ==> out != Outcome::Rejected(Rejection::AmountOverflow),
    {
        let transaction = match self.referenced(&record) {
            Ok(transaction) => transaction,
            Err(why) => {
                return Outcome::Rejected(why);
            },
        };
        match transaction.state {
            TransactionState::UnderDispute => {},
            _ => {
                return Outcome::Rejected(Rejection::InvalidState);
            },
        }
        let mut account = match find_account(&self.accounts, record.client) {
            Some(account) => account,
            None => {
                return Outcome::Rejected(Rejection::AccountNotFound);
            },
        };
        if account.chargeback(transaction.amount) {
            put_account(&mut self.accounts, record.client, account);
            self.set_state(record.tx, transaction, TransactionState::ChargedBack);
            Outcome::Applied
        } else if account.held.lt(&transaction.amount) {
            Outcome::Rejected(Rejection::InsufficientHeldFunds)
        } else {
            Outcome::Rejected(Rejection::AmountOverflow)
        }
    }

    /// Stores `transaction` under `tx` in the given state; nothing else of
    /// it changes.
    fn set_state(&mut self, tx: u32, transaction: Transaction, state: TransactionState)
        ensures
            final(self)@ == (Ledger {
                transactions: old(self)@.transactions.insert(tx, transaction.with_state(state)),
                ..old(self)@
            }),
    {
        let next = Transaction {
            tx_id: transaction.tx_id,
            client_id: transaction.client_id,
            transaction_type: transaction.transaction_type,
            amount: transaction.amount,
            state,
        };
        put_transaction(&mut self.transactions, tx, next);
    }
}

impl Default for TransactionProcessor {
    /// An engine with no accounts and no transactions.
    fn default() -> (r: TransactionProcessor)
        ensures
            r@ == Ledger::empty(),
            r@.wf(),
    {
        TransactionProcessor::new()
    }
}

/// Whether the rows stand in strictly ascending order of their clients.
spec fn ascending(rows: Seq<AccountOutput>) -> bool {
    forall|i: int, j: int|
        0 <= i < j < rows.len() ==> (#[trigger] rows[i]).client < (#[trigger] rows[j]).client
}

/// Puts `row` before the first row whose client is not smaller, and says
/// where that was. Rows in ascending order stay so if none of them is of
/// the same client.
fn insert_in_order(rows: &mut Vec<AccountOutput>, row: AccountOutput) -> (pos: usize)
    ensures
        pos <= old(rows)@.len(),
        final(rows)@ == old(rows)@.insert(pos as int, row),
        ascending(old(rows)@) && (forall|j: int|
            0 <= j < old(rows)@.len() ==> (#[trigger] old(rows)@[j]).client != row.client)
            ==> ascending(final(rows)@),
{
    let mut pos: usize = 0;
    while pos < rows.len() && rows[pos].client < row.client
        invariant
            pos <= rows.len(),
            rows@ == old(rows)@,
            forall|j: int| 0 <= j < pos ==> (#[trigger] rows@[j]).client < row.client,
        decreases rows.len() - pos,
    {
        pos += 1;
    }
    let ghost before = rows@;
    rows.insert(pos, row);
    proof {
        insert_index(before, pos as int, row);
        let after = rows@;
        if ascending(before) && (forall|j: int|
            0 <= j < before.len() ==> (#[trigger] before[j]).client != row.client) {
            assert forall|a: int, b: int| 0 <= a < b < after.len() implies (#[trigger] after[a]).client
                < (#[trigger] after[b]).client by {
                let oa = if a < pos { a } else { a - 1 };
                let ob = if b < pos { b } else { b - 1 };
                if a != pos {
                    assert(after[a] == before[oa]);
                }
                if b != pos {
                    assert(after[b] == before[ob]);
                }
                if pos < before.len() {
                    assert(before[pos as int].client > row.client);
                }
            }
        }
    }
    pos
}

/// Whether `row` is the row of one of the first `n` listed accounts.
spec fn row_of_listed(list: Seq<(u16, Account)>, n: int, row: AccountOutput) -> bool {
    exists|p: int| 0 <= p < n && (#[trigger] list[p]).1.output() == Some(row)
}

/// Whether some row is that of client `c`.
spec fn has_row(rows: Seq<AccountOutput>, c: u16) -> bool {
    exists|j: int| 0 <= j < rows.len() && (#[trigger] rows[j]).client == c
}

/// Where the elements of a sequence stand after one was inserted.
proof fn insert_index(rows: Seq<AccountOutput>, pos: int, row: AccountOutput)
    requires
        0 <= pos <= rows.len(),
    ensures
        rows.insert(pos, row).len() == rows.len() + 1,
        forall|j: int| 0 <= j < pos ==> rows.insert(pos, row)[j] == rows[j],
        rows.insert(pos, row)[pos] == row,
        forall|j: int| pos < j <= rows.len() ==> rows.insert(pos, row)[j] == rows[j - 1],
{
}

} // verus!
