//! The two stores of the ledger, kept in `dashmap` maps.

use vstd::prelude::*;
use dashmap::DashMap;
use crate::account::Account;
use crate::transaction::Transaction;

verus! {

/// `dashmap::DashMap`, a concurrent hash map. Nothing is known of a value
/// of it but what the items below say.
#[verifier::external_type_specification]
#[verifier::external_body]
#[verifier::reject_recursive_types(K)]
#[verifier::reject_recursive_types(V)]
#[verifier::reject_recursive_types(S)]
pub struct ExDashMap<K, V, S>(DashMap<K, V, S>);

/// The accounts an account store holds, by client.
pub uninterp spec fn account_entries(m: DashMap<u16, Account>) -> Map<u16, Account>;

/// The transactions a transaction store holds, by transaction id.
pub uninterp spec fn transaction_entries(m: DashMap<u32, Transaction>) -> Map<u32, Transaction>;

/// Whether `list` holds every entry of `entries` exactly once.
pub open spec fn enumerates(entries: Map<u16, Account>, list: Seq<(u16, Account)>) -> bool {
    &&& forall|i: int|
        0 <= i < list.len() ==> entries.contains_pair((#[trigger] list[i]).0, list[i].1)
    &&& forall|i: int, j: int|
        0 <= i < j < list.len() ==> (#[trigger] list[i]).0 != (#[trigger] list[j]).0
    &&& forall|k: u16| #[trigger]
        entries.contains_key(k) ==> exists|i: int| 0 <= i < list.len() && (#[trigger] list[i]).0 == k
}

/// `DashMap::new`: a map that holds nothing.
#[verifier::external_body]
pub(crate) fn empty_accounts() -> (m: DashMap<u16, Account>)
    ensures
        account_entries(m) =~= Map::empty(),
{
    DashMap::new()
}

/// `DashMap::new`: a map that holds nothing.
#[verifier::external_body]
pub(crate) fn empty_transactions() -> (m: DashMap<u32, Transaction>)
    ensures
        transaction_entries(m) =~= Map::empty(),
{
    DashMap::new()
}

/// `DashMap::entry` with `Entry::or_insert_with`: an entry that is there
/// stays as it is, a missing one is filled with a new account. The account
/// then found under the key is handed out.
#[verifier::external_body]
pub(crate) fn account_or_insert(m: &mut DashMap<u16, Account>, client: u16) -> (r: Account)
    ensures
        account_entries(*final(m)) == if account_entries(*old(m)).contains_key(client) {
            account_entries(*old(m))
        } else {
            account_entries(*old(m)).insert(client, Account::fresh(client))
        },
        r == account_entries(*final(m))[client],
{
    *m.entry(client).or_insert_with(|| Account::new(client)).value()
}

/// `DashMap::get`: the account stored under the key, if there is one.
#[verifier::external_body]
pub(crate) fn find_account(m: &DashMap<u16, Account>, client: u16) -> (r: Option<Account>)
    ensures
        r == if account_entries(*m).contains_key(client) {
            Some(account_entries(*m)[client])
        } else {
            None
        },
{
    m.get(&client).map(|e| *e.value())
}

/// `DashMap::insert`: the account is stored under the key, in place of any
/// that was there.
#[verifier::external_body]
pub(crate) fn put_account(m: &mut DashMap<u16, Account>, client: u16, account: Account)
    ensures
        account_entries(*final(m)) == account_entries(*old(m)).insert(client, account),
{
    m.insert(client, account);
}

/// `DashMap::iter`: every entry of the map comes out once, in no
/// particular order.
#[verifier::external_body]
pub(crate) fn account_list(m: &DashMap<u16, Account>) -> (r: Vec<(u16, Account)>)
    ensures
        enumerates(account_entries(*m), r@),
{
    m.iter().map(|e| (*e.key(), *e.value())).collect()
}

/// `DashMap::get`: the transaction stored under the key, if there is one.
#[verifier::external_body]
pub(crate) fn find_transaction(m: &DashMap<u32, Transaction>, tx: u32) -> (r: Option<Transaction>)
    ensures
        r == if transaction_entries(*m).contains_key(tx) {
            Some(transaction_entries(*m)[tx])
        } else {
            None
        },
{
    m.get(&tx).map(|e| *e.value())
}

/// `DashMap::insert`: the transaction is stored under the key, in place of
/// any that was there.
#[verifier::external_body]
pub(crate) fn put_transaction(m: &mut DashMap<u32, Transaction>, tx: u32, transaction: Transaction)
    ensures
        transaction_entries(*final(m)) == transaction_entries(*old(m)).insert(tx, transaction),
{
    m.insert(tx, transaction);
}

} // verus!
