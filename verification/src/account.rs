//! Client accounts and the operations that move funds in them.

use vstd::prelude::*;
use crate::amount::{Amount, DecimalValue};

verus! {

/// The balances of one client.
#[derive(Clone, Copy, Debug)]
pub struct Account {
    pub client_id: u16,
    pub available: Amount,
    pub held: Amount,
    pub locked: bool,
}

/// One row of the account snapshot.
#[derive(Clone, Copy, Debug)]
pub struct AccountOutput {
    pub client: u16,
    pub available: Amount,
    pub held: Amount,
    pub total: Amount,
    pub locked: bool,
}

impl Account {
    /// Neither balance is negative.
    pub open spec fn wf(self) -> bool {
        !self.available@.is_negative() && !self.held@.is_negative()
    }

    /// The account of a client that has not been seen before.
    pub open spec fn fresh(client_id: u16) -> Account {
        Account {
            client_id,
            available: Amount::of(DecimalValue { mantissa: 0, scale: 0 }),
            held: Amount::of(DecimalValue { mantissa: 0, scale: 0 }),
            locked: false,
        }
    }

    /// A fresh account has zero balances, so none is negative.
    pub proof fn fresh_is_wf(client_id: u16)
        ensures
            Account::fresh(client_id).wf(),
            Account::fresh(client_id).client_id == client_id,
            Account::fresh(client_id).available@ == (DecimalValue { mantissa: 0, scale: 0 }),
            Account::fresh(client_id).held@ == (DecimalValue { mantissa: 0, scale: 0 }),
            !Account::fresh(client_id).locked,
    {
        Amount::view_of(DecimalValue { mantissa: 0, scale: 0 });
    }

    /// The account after a deposit, `None` where the deposit is rejected.
    pub open spec fn after_deposit(self, amount: Amount) -> Option<Account> {
        if self.locked {
            None
        } else {
            match self.available.plus(amount) {
                Some(available) => Some(Account { available, ..self }),
                None => None,
            }
        }
    }

    /// The account after a withdrawal, `None` where it is rejected.
    pub open spec fn after_withdraw(self, amount: Amount) -> Option<Account> {
        if self.locked || self.available@.lt(amount@) {
            None
        } else {
            match self.available.minus(amount) {
                Some(available) => Some(Account { available, ..self }),
                None => None,
            }
        }
    }

    /// The account after `amount` moved from available to held, `None`
    /// where that is rejected. The lock plays no part.
    pub open spec fn after_hold(self, amount: Amount) -> Option<Account> {
        if self.available@.lt(amount@) {
            None
        } else {
            match (self.available.minus(amount), self.held.plus(amount)) {
                (Some(available), Some(held)) => Some(Account { available, held, ..self }),
                _ => None,
            }
        }
    }

    /// The account after `amount` moved from held back to available, `None`
    /// where that is rejected.
    pub open spec fn after_release(self, amount: Amount) -> Option<Account> {
        if self.held@.lt(amount@) {
            None
        } else {
            match (self.held.minus(amount), self.available.plus(amount)) {
                (Some(held), Some(available)) => Some(Account { available, held, ..self }),
                _ => None,
            }
        }
    }

    /// The account after `amount` left the held funds for good, `None`
    /// where that is rejected. The account is locked afterwards.
    pub open spec fn after_chargeback(self, amount: Amount) -> Option<Account> {
        if self.held@.lt(amount@) {
            None
        } else {
            match self.held.minus(amount) {
                Some(held) => Some(Account { held, locked: true, ..self }),
                None => None,
            }
        }
    }

    /// The snapshot row of the account, `None` where the total overflows.
    pub open spec fn output(self) -> Option<AccountOutput> {
        match self.available.plus(self.held) {
            Some(total) => Some(
                AccountOutput {
                    client: self.client_id,
                    available: self.available,
                    held: self.held,
                    total,
                    locked: self.locked,
                },
            ),
            None => None,
        }
    }

    /// A new account: zero balances, not locked.
    pub fn new(client_id: u16) -> (r: Account)
        ensures
            r == Account::fresh(client_id),
            r.wf(),
    {
        let r = Account {
            client_id,
            available: Amount::zero(),
            held: Amount::zero(),
            locked: false,
        };
        proof {
            Amount::of_view(r.available);
            Amount::of_view(r.held);
        }
        r
    }

    /// Takes over new balances, all or none: where both are there they
    /// replace the old ones, and the account is locked if `lock` says so;
    /// where one is missing nothing changes. Returns whether the balances
    /// were taken over.
    pub fn commit(&mut self, available: Option<Amount>, held: Option<Amount>, lock: bool) -> (ok: bool)
        ensures
            ok == (available is Some && held is Some),
            ok ==> *final(self) == (Account {
                available: available->0,
                held: held->0,
                locked: old(self).locked || lock,
                ..*old(self)
            }),
            !ok ==> *final(self) == *old(self),
    {
        match (available, held) {
            (Some(available), Some(held)) => {
                self.available = available;
                self.held = held;
                if lock {
                    self.locked = true;
                }
                true
            },
            _ => false,
        }
    }

    /// Available plus held, or `None` where the sum overflows.
    pub fn total(&self) -> (r: Option<Amount>)
        ensures
            r == self.available.plus(self.held),
            r matches Some(t) ==> (self.wf() ==> !t@.is_negative()),
    {
        self.available.checked_add(&self.held)
    }

    /// Adds `amount` to the available funds unless the account is locked.
    /// Returns whether the deposit was applied; a rejected one changes
    /// nothing.
    pub fn deposit(&mut self, amount: Amount) -> (ok: bool)
        ensures
            ok == old(self).after_deposit(amount) is Some,
            ok ==> Some(*final(self)) == old(self).after_deposit(amount),
            !ok ==> *final(self) == *old(self),
            old(self).wf() && !amount@.is_negative() ==> final(self).wf(),
    {
        if self.locked {
            return false;
        }
        let available = self.available.checked_add(&amount);
        self.commit(available, Some(self.held), false)
    }

    /// Takes `amount` from the available funds unless the account is locked
    /// or holds less. Returns whether the withdrawal was applied; a rejected
    /// one changes nothing. An amount that is not negative is withdrawn
    /// whenever the account is open and holds as much.
    pub fn withdraw(&mut self, amount: Amount) -> (ok: bool)
        ensures
            ok == old(self).after_withdraw(amount) is Some,
            ok ==> Some(*final(self)) == old(self).after_withdraw(amount),
            !ok ==> *final(self) == *old(self),
            old(self).wf() ==> final(self).wf(),
            !amount@.is_negative() ==> ok == (!old(self).locked && !old(self).available@.lt(
                amount@,
            )),
    {
        if self.locked || self.available.lt(&amount) {
            return false;
        }
        let available = self.available.checked_sub(&amount);
        self.commit(available, Some(self.held), false)
    }

    /// Moves `amount` from available to held unless less is available.
    /// Returns whether the funds were moved; a rejected hold changes nothing.
    pub fn hold_funds(&mut self, amount: Amount) -> (ok: bool)
        ensures
            ok == old(self).after_hold(amount) is Some,
            ok ==> Some(*final(self)) == old(self).after_hold(amount),
            !ok ==> *final(self) == *old(self),
            old(self).wf() && !amount@.is_negative() ==> final(self).wf(),
    {
        if self.available.lt(&amount) {
            return false;
        }
        let available = self.available.checked_sub(&amount);
        let held = self.held.checked_add(&amount);
        self.commit(available, held, false)
    }

    /// Moves `amount` from held back to available unless less is held.
    /// Returns whether the funds were moved; a rejected release changes
    /// nothing.
    pub fn release_funds(&mut self, amount: Amount) -> (ok: bool)
        ensures
            ok == old(self).after_release(amount) is Some,
            ok ==> Some(*final(self)) == old(self).after_release(amount),
            !ok ==> *final(self) == *old(self),
            old(self).wf() && !amount@.is_negative() ==> final(self).wf(),
    {
        if self.held.lt(&amount) {
            return false;
        }
        let held = self.held.checked_sub(&amount);
        let available = self.available.checked_add(&amount);
        self.commit(available, held, false)
    }

    /// Removes `amount` from the held funds and locks the account, unless
    /// less is held. Returns whether that was done; a rejected chargeback
    /// changes nothing. An amount that is not negative is charged back
    /// whenever as much is held.
    pub fn chargeback(&mut self, amount: Amount) -> (ok: bool)
        ensures
            ok == old(self).after_chargeback(amount) is Some,
            ok ==> Some(*final(self)) == old(self).after_chargeback(amount),
            !ok ==> *final(self) == *old(self),
            old(self).wf() ==> final(self).wf(),
            final(self).locked == (old(self).locked || ok),
            !amount@.is_negative() ==> ok == !old(self).held@.lt(amount@),
    {
        if self.held.lt(&amount) {
            return false;
        }
        let held = self.held.checked_sub(&amount);
        self.commit(Some(self.available), held, true)
    }

    /// The snapshot row: the balances, their total and the lock. `None`
    /// where the total overflows.
    pub fn to_output(&self) -> (r: Option<AccountOutput>)
        ensures
            r == self.output(),
    {
        match self.total() {
            Some(total) => Some(
                AccountOutput {
                    client: self.client_id,
                    available: self.available,
                    held: self.held,
                    total,
                    locked: self.locked,
                },
            ),
            None => None,
        }
    }
}

} // verus!
