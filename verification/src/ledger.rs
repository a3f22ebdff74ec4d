//! The ledger as a mathematical object: two maps, and what each kind of
//! record does to them.

use vstd::prelude::*;
use crate::account::{Account, AccountOutput};
use crate::transaction::{Transaction, TransactionInput, TransactionState, TransactionType};

verus! {

/// Why a record was not applied.
#[derive(Clone, Copy, Debug, PartialEq, Eq, Structural)]
pub enum Rejection {
    MissingAmount,
    NonPositiveAmount,
    AccountLocked,
    InsufficientFundsOrLocked,
    TransactionNotFound,
    ClientMismatch,
    NonDepositTransaction,
    InvalidState,
    AccountNotFound,
    InsufficientAvailableFunds,
    InsufficientHeldFunds,
    /// A balance would have left the range of the decimal type.
    AmountOverflow,
}

impl Rejection {
    /// The short code of the reason.
    pub open spec fn code_text(self) -> Seq<char> {
        match self {
            Rejection::MissingAmount => "missing_amount"@,
            Rejection::NonPositiveAmount => "non_positive_amount"@,
            Rejection::AccountLocked => "account_locked"@,
            Rejection::InsufficientFundsOrLocked => "insufficient_funds_or_locked"@,
            Rejection::TransactionNotFound => "transaction_not_found"@,
            Rejection::ClientMismatch => "client_mismatch"@,
            Rejection::NonDepositTransaction => "non_deposit_transaction"@,
            Rejection::InvalidState => "invalid_state"@,
            Rejection::AccountNotFound => "account_not_found"@,
            Rejection::InsufficientAvailableFunds => "insufficient_available_funds"@,
            Rejection::InsufficientHeldFunds => "insufficient_held_funds"@,
            Rejection::AmountOverflow => "amount_overflow"@,
        }
    }

    /// The short code under which the reason is reported.
    pub fn code(&self) -> (r: &'static str)
        ensures
            r@ == self.code_text(),
    {
        match self {
            Rejection::MissingAmount => "missing_amount",
            Rejection::NonPositiveAmount => "non_positive_amount",
            Rejection::AccountLocked => "account_locked",
            Rejection::InsufficientFundsOrLocked => "insufficient_funds_or_locked",
            Rejection::TransactionNotFound => "transaction_not_found",
            Rejection::ClientMismatch => "client_mismatch",
            Rejection::NonDepositTransaction => "non_deposit_transaction",
            Rejection::InvalidState => "invalid_state",
            Rejection::AccountNotFound => "account_not_found",
            Rejection::InsufficientAvailableFunds => "insufficient_available_funds",
            Rejection::InsufficientHeldFunds => "insufficient_held_funds",
            Rejection::AmountOverflow => "amount_overflow",
        }
    }
}

/// What became of one record.
#[derive(Clone, Copy, Debug, PartialEq, Eq, Structural)]
pub enum Outcome {
    Applied,
    Rejected(Rejection),
}

/// The accounts by client and the stored deposits by transaction id.
pub struct Ledger {
    pub accounts: Map<u16, Account>,
    pub transactions: Map<u32, Transaction>,
}

impl Ledger {
    /// The ledger with no accounts and no transactions.
    pub open spec fn empty() -> Ledger {
        Ledger { accounts: Map::empty(), transactions: Map::empty() }
    }

    /// Every account is stored under its own client and has no negative
    /// balance; every stored transaction is a deposit of a positive amount,
    /// stored under its own id, whose client has an account.
    pub open spec fn wf(self) -> bool {
        &&& forall|c: u16| #[trigger]
            self.accounts.contains_key(c) ==> self.accounts[c].client_id == c
                && self.accounts[c].wf()
        &&& forall|t: u32| #[trigger]
            self.transactions.contains_key(t) ==> {
                &&& self.transactions[t].tx_id == t
                &&& self.transactions[t].transaction_type == TransactionType::Deposit
                &&& self.transactions[t].amount@.is_positive()
                &&& self.accounts.contains_key(self.transactions[t].client_id)
            }
    }

    /// The ledger in which `client` has an account: a new one if it had none.
    pub open spec fn with_account(self, client: u16) -> Ledger {
        if self.accounts.contains_key(client) {
            self
        } else {
            Ledger { accounts: self.accounts.insert(client, Account::fresh(client)), ..self }
        }
    }

    /// The amount of a deposit or withdrawal record, or why it has none that
    /// can be applied.
    pub open spec fn usable_amount(record: TransactionInput) -> Result<crate::amount::Amount, Rejection> {
        match record.amount {
            None => Err(Rejection::MissingAmount),
            Some(amount) => if amount@.is_positive() {
                Ok(amount)
            } else {
                Err(Rejection::NonPositiveAmount)
            },
        }
    }

    /// The stored transaction a record refers to, if it is there and belongs
    /// to the record's client.
    pub open spec fn referenced(self, record: TransactionInput) -> Result<Transaction, Rejection> {
        if !self.transactions.contains_key(record.tx) {
            Err(Rejection::TransactionNotFound)
        } else if self.transactions[record.tx].client_id != record.client {
            Err(Rejection::ClientMismatch)
        } else {
            Ok(self.transactions[record.tx])
        }
    }

    /// The ledger with the account of `client` and the transaction `tx`
    /// replaced.
    pub open spec fn settled(self, client: u16, account: Account, tx: u32, transaction: Transaction) -> Ledger {
        Ledger {
            accounts: self.accounts.insert(client, account),
            transactions: self.transactions.insert(tx, transaction),
        }
    }

    /// A deposit: the client's account comes into being if need be; an
    /// amount that is missing or not positive is rejected; otherwise the
    /// account takes the deposit, and the deposit is stored under its id in
    /// state `Normal`, in place of any transaction stored there before.
    pub open spec fn deposit(self, record: TransactionInput) -> (Ledger, Outcome) {
        let ledger = self.with_account(record.client);
        match Self::usable_amount(record) {
            Err(why) => (ledger, Outcome::Rejected(why)),
            Ok(amount) => {
                let account = ledger.accounts[record.client];
                match account.after_deposit(amount) {
                    Some(next) => (
                        ledger.settled(
                            record.client,
                            next,
                            record.tx,
                            Transaction::fresh(record.tx, record.client, TransactionType::Deposit, amount),
                        ),
                        Outcome::Applied,
                    ),
                    None => (
                        ledger,
                        Outcome::Rejected(
                            if account.locked {
                                Rejection::AccountLocked
                            } else {
                                Rejection::AmountOverflow
                            },
                        ),
                    ),
                }
            },
        }
    }

    /// A withdrawal: as a deposit, but funds leave and nothing is stored.
    pub open spec fn withdrawal(self, record: TransactionInput) -> (Ledger, Outcome) {
        let ledger = self.with_account(record.client);
        match Self::usable_amount(record) {
            Err(why) => (ledger, Outcome::Rejected(why)),
            Ok(amount) => {
                let account = ledger.accounts[record.client];
                match account.after_withdraw(amount) {
                    Some(next) => (
                        Ledger { accounts: ledger.accounts.insert(record.client, next), ..ledger },
                        Outcome::Applied,
                    ),
                    None => (
                        ledger,
                        Outcome::Rejected(
                            if account.locked || account.available@.lt(amount@) {
                                Rejection::InsufficientFundsOrLocked
                            } else {
                                Rejection::AmountOverflow
                            },
                        ),
                    ),
                }
            },
        }
    }

    /// A dispute: the referenced deposit must be there, belong to the
    /// client and be in state `Normal`; its amount is then held and it
    /// comes under dispute. A rejected dispute changes nothing.
    pub open spec fn dispute(self, record: TransactionInput) -> (Ledger, Outcome) {
        match self.referenced(record) {
            Err(why) => (self, Outcome::Rejected(why)),
            Ok(transaction) => if transaction.transaction_type != TransactionType::Deposit {
                (self, Outcome::Rejected(Rejection::NonDepositTransaction))
            } else if transaction.state != TransactionState::Normal {
                (self, Outcome::Rejected(Rejection::InvalidState))
            } else if !self.accounts.contains_key(record.client) {
                (self, Outcome::Rejected(Rejection::AccountNotFound))
            } else {
                let account = self.accounts[record.client];
                match account.after_hold(transaction.amount) {
                    Some(next) => (
                        self.settled(
                            record.client,
                            next,
                            record.tx,
                            transaction.with_state(TransactionState::UnderDispute),
                        ),
                        Outcome::Applied,
                    ),
                    None => (
                        self,
                        Outcome::Rejected(
                            if account.available@.lt(transaction.amount@) {
                                Rejection::InsufficientAvailableFunds
                            } else {
                                Rejection::AmountOverflow
                            },
                        ),
                    ),
                }
            },
        }
    }

    /// A resolve: the referenced transaction must be there, belong to the
    /// client and be under dispute; its amount is then released and it is
    /// `Normal` again. A rejected resolve changes nothing.
    pub open spec fn resolve(self, record: TransactionInput) -> (Ledger, Outcome) {
        match self.referenced(record) {
            Err(why) => (self, Outcome::Rejected(why)),
            Ok(transaction) => if transaction.state != TransactionState::UnderDispute {
                (self, Outcome::Rejected(Rejection::InvalidState))
            } else if !self.accounts.contains_key(record.client) {
                (self, Outcome::Rejected(Rejection::AccountNotFound))
            } else {
                let account = self.accounts[record.client];
                match account.after_release(transaction.amount) {
                    Some(next) => (
                        self.settled(
                            record.client,
                            next,
                            record.tx,
                            transaction.with_state(TransactionState::Normal),
                        ),
                        Outcome::Applied,
                    ),
                    None => (
                        self,
                        Outcome::Rejected(
                            if account.held@.lt(transaction.amount@) {
                                Rejection::InsufficientHeldFunds
                            } else {
                                Rejection::AmountOverflow
                            },
                        ),
                    ),
                }
            },
        }
    }

    /// A chargeback: the referenced transaction must be there, belong to
    /// the client and be under dispute; its amount then leaves the held
    /// funds, the account is locked and the transaction is charged back for
    /// good. A rejected chargeback changes nothing.
    pub open spec fn chargeback(self, record: TransactionInput) -> (Ledger, Outcome) {
        match self.referenced(record) {
            Err(why) => (self, Outcome::Rejected(why)),
            Ok(transaction) => if transaction.state != TransactionState::UnderDispute {
                (self, Outcome::Rejected(Rejection::InvalidState))
            } else if !self.accounts.contains_key(record.client) {
                (self, Outcome::Rejected(Rejection::AccountNotFound))
            } else {
                let account = self.accounts[record.client];
                match account.after_chargeback(transaction.amount) {
                    Some(next) => (
                        self.settled(
                            record.client,
                            next,
                            record.tx,
                            transaction.with_state(TransactionState::ChargedBack),
                        ),
                        Outcome::Applied,
                    ),
                    None => (
                        self,
                        Outcome::Rejected(
                            if account.held@.lt(transaction.amount@) {
                                Rejection::InsufficientHeldFunds
                            } else {
                                Rejection::AmountOverflow
                            },
                        ),
                    ),
                }
            },
        }
    }

    /// What one record does to the ledger, and what became of the record.
    pub open spec fn apply(self, record: TransactionInput) -> (Ledger, Outcome) {
        match record.transaction_type {
            TransactionType::Deposit => self.deposit(record),
            TransactionType::Withdrawal => self.withdrawal(record),
            TransactionType::Dispute => self.dispute(record),
            TransactionType::Resolve => self.resolve(record),
            TransactionType::Chargeback => self.chargeback(record),
        }
    }

    /// The ledger after the records, applied in the order given.
    pub open spec fn apply_all(self, records: Seq<TransactionInput>) -> Ledger
        decreases records.len(),
    {
        if records.len() == 0 {
            self
        } else {
            self.apply_all(records.drop_last()).apply(records.last()).0
        }
    }

    /// Whether `rows` is the snapshot of the accounts: one row for each
    /// account, in ascending order of the clients.
    pub open spec fn snapshot_is(self, rows: Seq<AccountOutput>) -> bool {
        &&& forall|i: int, j: int|
            0 <= i < j < rows.len() ==> (#[trigger] rows[i]).client < (#[trigger] rows[j]).client
        &&& forall|i: int|
            0 <= i < rows.len() ==> self.accounts.contains_key((#[trigger] rows[i]).client)
                && self.accounts[rows[i].client].output() == Some(rows[i])
        &&& forall|c: u16| #[trigger]
            self.accounts.contains_key(c) ==> exists|i: int|
                0 <= i < rows.len() && (#[trigger] rows[i]).client == c
    }
}

} // verus!
