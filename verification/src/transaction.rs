//! Transaction records and the stored form of a deposit.

use vstd::prelude::*;
use crate::amount::Amount;

verus! {

/// The five kinds of record the engine accepts.
#[derive(Clone, Copy, Debug, PartialEq, Eq, Structural)]
pub enum TransactionType {
    Deposit,
    Withdrawal,
    Dispute,
    Resolve,
    Chargeback,
}

/// The lower-case form of an ASCII capital; any other character is itself.
pub open spec fn ascii_lower(c: char) -> char {
    if 'A' <= c && c <= 'Z' {
        ((c as u32) + 32) as char
    } else {
        c
    }
}

/// The text with every ASCII capital in lower case.
pub open spec fn lowered(text: Seq<char>) -> Seq<char> {
    text.map_values(|c: char| ascii_lower(c))
}

/// `str::eq_ignore_ascii_case`: whether two texts are the same once their
/// ASCII capitals are in lower case.
#[verifier::external_body]
fn same_ignoring_case(a: &str, b: &str) -> (r: bool)
    ensures
        r == (lowered(a@) == lowered(b@)),
{
    a.eq_ignore_ascii_case(b)
}

impl TransactionType {
    /// The kind that a text names, whatever the case of its letters.
    pub open spec fn parsed(text: Seq<char>) -> Option<TransactionType> {
        if lowered(text) == lowered("deposit"@) {
            Some(TransactionType::Deposit)
        } else if lowered(text) == lowered("withdrawal"@) {
            Some(TransactionType::Withdrawal)
        } else if lowered(text) == lowered("dispute"@) {
            Some(TransactionType::Dispute)
        } else if lowered(text) == lowered("resolve"@) {
            Some(TransactionType::Resolve)
        } else if lowered(text) == lowered("chargeback"@) {
            Some(TransactionType::Chargeback)
        } else {
            None
        }
    }

    /// Reads the kind of a record: one of `deposit`, `withdrawal`,
    /// `dispute`, `resolve` and `chargeback`, in any case.
    pub fn parse(text: &str) -> (r: Option<TransactionType>)
        ensures
            r == TransactionType::parsed(text@),
    {
        if same_ignoring_case(text, "deposit") {
            Some(TransactionType::Deposit)
        } else if same_ignoring_case(text, "withdrawal") {
            Some(TransactionType::Withdrawal)
        } else if same_ignoring_case(text, "dispute") {
            Some(TransactionType::Dispute)
        } else if same_ignoring_case(text, "resolve") {
            Some(TransactionType::Resolve)
        } else if same_ignoring_case(text, "chargeback") {
            Some(TransactionType::Chargeback)
        } else {
            None
        }
    }

    /// The name of the kind, in lower case.
    pub open spec fn name_text(self) -> Seq<char> {
        match self {
            TransactionType::Deposit => "deposit"@,
            TransactionType::Withdrawal => "withdrawal"@,
            TransactionType::Dispute => "dispute"@,
            TransactionType::Resolve => "resolve"@,
            TransactionType::Chargeback => "chargeback"@,
        }
    }

    /// The name of the kind, in lower case.
    pub fn name(&self) -> (r: &'static str)
        ensures
            r@ == self.name_text(),
    {
        match self {
            TransactionType::Deposit => "deposit",
            TransactionType::Withdrawal => "withdrawal",
            TransactionType::Dispute => "dispute",
            TransactionType::Resolve => "resolve",
            TransactionType::Chargeback => "chargeback",
        }
    }

    /// A name is read back as the kind it names.
    pub proof fn name_round_trip(kind: TransactionType)
        ensures
            TransactionType::parsed(kind.name_text()) == Some(kind),
    {
        reveal_strlit("deposit");
        reveal_strlit("withdrawal");
        reveal_strlit("dispute");
        reveal_strlit("resolve");
        reveal_strlit("chargeback");
        assert(lowered("deposit"@).len() == 7);
        assert(lowered("withdrawal"@).len() == 10);
        assert(lowered("dispute"@)[0] == 'd' && lowered("dispute"@)[1] == 'i');
        assert(lowered("deposit"@)[0] == 'd' && lowered("deposit"@)[1] == 'e');
        assert(lowered("resolve"@)[0] == 'r');
        assert(lowered("chargeback"@)[0] == 'c');
        assert(lowered("withdrawal"@)[0] == 'w');
    }
}

/// One input record. `amount` is present for deposits and withdrawals.
#[derive(Clone, Copy, Debug)]
pub struct TransactionInput {
    pub transaction_type: TransactionType,
    pub client: u16,
    pub tx: u32,
    pub amount: Option<Amount>,
}

/// Where a stored transaction stands in the dispute life-cycle.
#[derive(Clone, Copy, Debug, PartialEq, Eq, Structural)]
pub enum TransactionState {
    Normal,
    UnderDispute,
    ChargedBack,
}

impl TransactionState {
    /// The moves the life-cycle allows in one step: a dispute opens on a
    /// normal transaction, and an open dispute ends in a resolve or in a
    /// chargeback. Nothing leaves `ChargedBack`.
    pub open spec fn may_become(self, next: TransactionState) -> bool {
        match (self, next) {
            (TransactionState::Normal, TransactionState::UnderDispute) => true,
            (TransactionState::UnderDispute, TransactionState::Normal) => true,
            (TransactionState::UnderDispute, TransactionState::ChargedBack) => true,
            _ => false,
        }
    }
}

/// A transaction kept in the ledger so that it can be disputed later.
#[derive(Clone, Copy, Debug)]
pub struct Transaction {
    pub tx_id: u32,
    pub client_id: u16,
    pub transaction_type: TransactionType,
    pub amount: Amount,
    pub state: TransactionState,
}

impl Transaction {
    /// A transaction in state `Normal`.
    pub open spec fn fresh(
        tx_id: u32,
        client_id: u16,
        transaction_type: TransactionType,
        amount: Amount,
    ) -> Transaction {
        Transaction { tx_id, client_id, transaction_type, amount, state: TransactionState::Normal }
    }

    /// The same transaction in another state.
    pub open spec fn with_state(self, state: TransactionState) -> Transaction {
        Transaction { state, ..self }
    }

    pub fn new(
        tx_id: u32,
        client_id: u16,
        transaction_type: TransactionType,
        amount: Amount,
    ) -> (r: Transaction)
        ensures
            r == Transaction::fresh(tx_id, client_id, transaction_type, amount),
    {
        Transaction { tx_id, client_id, transaction_type, amount, state: TransactionState::Normal }
    }
}

} // verus!
