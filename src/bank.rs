use vstd::prelude::*;

use crate::account::Defaults;
use crate::customer::{trimmed, Customer, CustomerRegistration};
use crate::decimal::Decimal;
use crate::error::LedgerError;

verus! {

/// The ledger: a pooled fund, the registry of customers keyed by the
/// identity each was issued (its position in `customers`), and the
/// configuration new accounts start from.
#[derive(Clone, Debug, PartialEq, Eq)]
pub struct Bank {
    pub vault: Decimal,
    pub initial_fund_amount: Decimal,
    pub customers: Vec<Customer>,
    pub defaults: Defaults,
    /// The latest epoch the ledger has acted at.
    pub epoch: u64,
}

impl Bank {
    /// The fund is non-negative, the configuration valid, and every account
    /// well formed and last updated no later than `epoch`.
    pub open spec fn wf(&self) -> bool {
        &&& self.vault@ >= 0
        &&& self.defaults.wf()
        &&& forall|i: int|
            0 <= i < self.customers@.len() ==> {
                let c = #[trigger] self.customers@[i];
                &&& c.account.wf()
                &&& c.account.debit.last_update <= self.epoch
                &&& c.account.credit.last_update <= self.epoch
            }
    }

    /// The first check a deposit fails, if any.
    pub open spec fn deposit_error(
        &self,
        id: int,
        amount: int,
        funds: int,
        now: u64,
    ) -> Option<LedgerError> {
        if !(0 <= id < self.customers@.len()) {
            Some(LedgerError::UnknownIdentity)
        } else if self.customers@[id].known_since is None {
            Some(LedgerError::NotVerified)
        } else if amount > funds {
            Some(LedgerError::InsufficientFunds)
        } else if amount <= 0 {
            Some(LedgerError::InvalidAmount)
        } else if !self.customers@[id].account.update_ok(
            self.customers@[id].account.signed() - amount,
            now,
        ) {
            Some(LedgerError::LimitExceeded)
        } else {
            None
        }
    }

    /// The first check a withdrawal fails, if any.
    pub open spec fn withdraw_error(&self, id: int, amount: int, now: u64) -> Option<LedgerError> {
        if !(0 <= id < self.customers@.len()) {
            Some(LedgerError::UnknownIdentity)
        } else if self.customers@[id].known_since is None {
            Some(LedgerError::NotVerified)
        } else if amount > self.vault@ {
            Some(LedgerError::InsufficientFunds)
        } else if amount <= 0 {
            Some(LedgerError::InvalidAmount)
        } else if !self.customers@[id].account.update_ok(
            self.customers@[id].account.signed() + amount,
            now,
        ) {
            Some(LedgerError::LimitExceeded)
        } else {
            None
        }
    }

    /// A ledger holding `initial_fund`, with no customers, configured with
    /// a credit rate of 0.01 under a ceiling of 1,000,000 and a debit rate of
    /// 0.05 under a ceiling of 1,000.
    pub fn new(initial_fund: Decimal, now: u64) -> (r: Bank)
        requires
            initial_fund@ >= 0,
        ensures
            r.wf(),
            r.vault == initial_fund,
            r.initial_fund_amount == initial_fund,
            r.customers@.len() == 0,
            r.epoch == now,
            r.defaults.credit_interest_rate@ == 10_000_000_000_000_000,
            r.defaults.credit_limit@ == 1_000_000 * crate::decimal::SCALE,
            r.defaults.debit_interest_rate@ == 50_000_000_000_000_000,
            r.defaults.debit_limit@ == 1_000 * crate::decimal::SCALE,
    {
        let defaults = Defaults::new(
            Decimal::from_attos(10_000_000_000_000_000),
            Decimal::from_int(1_000_000),
            Decimal::from_attos(50_000_000_000_000_000),
            Decimal::from_int(1_000),
        );
        Bank {
            vault: initial_fund,
            initial_fund_amount: initial_fund,
            customers: Vec::new(),
            defaults,
            epoch: now,
        }
    }

    /// The latest epoch the ledger has acted at; a later call must not pass
    /// an earlier one.
    pub fn epoch(&self) -> (r: u64)
        ensures
            r == self.epoch,
    {
        self.epoch
    }

    /// Registers a new, unverified customer under the trimmed names and
    /// returns the identity it was issued, never issued before, with the
    /// registration. Fails with `InvalidName`, changing nothing, when either
    /// name is empty after trimming.
    pub fn customer_registration(&mut self, first_name: String, last_name: String, now: u64) -> (r:
        Result<(usize, CustomerRegistration), LedgerError>)
        requires
            old(self).wf(),
            now >= old(self).epoch,
        ensures
            final(self).wf(),
            match r {
                Ok((id, reg)) => {
                    &&& trimmed(first_name@).len() > 0
                    &&& trimmed(last_name@).len() > 0
                    &&& reg.first_name@ == trimmed(first_name@)
                    &&& reg.last_name@ == trimmed(last_name@)
                    &&& id == old(self).customers@.len()
                    &&& final(self).customers@ == old(self).customers@.push(
                        Customer {
                            known_since: None,
                            customer_since: now,
                            account: crate::account::BankAccount::fresh(old(self).defaults, now),
                        },
                    )
                    &&& final(self).vault == old(self).vault
                    &&& final(self).initial_fund_amount == old(self).initial_fund_amount
                    &&& final(self).defaults == old(self).defaults
                    &&& final(self).epoch == now
                },
                Err(e) => {
                    &&& e == LedgerError::InvalidName
                    &&& trimmed(first_name@).len() == 0 || trimmed(last_name@).len() == 0
                    &&& *final(self) == *old(self)
                },
            },
    {
        let reg = CustomerRegistration::new(first_name, last_name)?;
        let id = self.customers.len();
        let customer = Customer::new(&self.defaults, now);
        self.customers.push(customer);
        self.epoch = now;
        Ok((id, reg))
    }

    /// Moves `amount` out of the caller's `funds` into the pooled fund and
    /// credits it to the customer `id`, returning what is left of `funds`.
    /// Fails, changing nothing, with the first of: `UnknownIdentity`,
    /// `NotVerified` (whatever funds are offered), `InsufficientFunds`
    /// (`amount > funds`), `InvalidAmount` (`amount <= 0`), `LimitExceeded`.
    pub fn deposit(&mut self, id: usize, amount: Decimal, funds: Decimal, now: u64) -> (r: Result<
        Decimal,
        LedgerError,
    >)
        requires
            old(self).wf(),
            now >= old(self).epoch,
            old(self).vault@ + amount@ <= i128::MAX,
        ensures
            final(self).wf(),
            match r {
                Ok(rest) => {
                    let c = old(self).customers@[id as int];
                    &&& old(self).deposit_error(id as int, amount@, funds@, now) is None
                    &&& rest@ == funds@ - amount@
                    &&& final(self).vault@ == old(self).vault@ + amount@
                    &&& final(self).customers@ == old(self).customers@.update(
                        id as int,
                        Customer { account: c.account.spec_credit(amount@, now), ..c },
                    )
                    &&& final(self).initial_fund_amount == old(self).initial_fund_amount
                    &&& final(self).defaults == old(self).defaults
                    &&& final(self).epoch == now
                },
                Err(e) => {
                    &&& old(self).deposit_error(id as int, amount@, funds@, now) == Some(e)
                    &&& *final(self) == *old(self)
                },
            },
    {
        if id >= self.customers.len() {
            return Err(LedgerError::UnknownIdentity);
        }
        let customer = self.customers[id];
        if customer.known_since.is_none() {
            return Err(LedgerError::NotVerified);
        }
        if amount.attos > funds.attos {
            return Err(LedgerError::InsufficientFunds);
        }
        if amount.attos <= 0 {
            return Err(LedgerError::InvalidAmount);
        }
        let account = customer.account.credit(amount, now)?;
        self.customers[id] = Customer { account, ..customer };
        self.vault = Decimal { attos: self.vault.attos + amount.attos };
        self.epoch = now;
        proof {
            assert forall|i: int| 0 <= i < self.customers@.len() implies {
                let c = #[trigger] self.customers@[i];
                &&& c.account.wf()
                &&& c.account.debit.last_update <= self.epoch
                &&& c.account.credit.last_update <= self.epoch
            } by {
                if i != id {
                    assert(old(self).customers@[i] == self.customers@[i]);
                }
            }
        }
        Ok(Decimal { attos: funds.attos - amount.attos })
    }

    /// Takes `amount` out of the pooled fund and debits it to the customer
    /// `id`, returning it. Fails, changing nothing, with the first of:
    /// `UnknownIdentity`, `NotVerified`, `InsufficientFunds` (`amount` above
    /// the pooled fund), `InvalidAmount` (`amount <= 0`), `LimitExceeded`.
    pub fn withdraw(&mut self, id: usize, amount: Decimal, now: u64) -> (r: Result<
        Decimal,
        LedgerError,
    >)
        requires
            old(self).wf(),
            now >= old(self).epoch,
        ensures
            final(self).wf(),
            match r {
                Ok(out) => {
                    let c = old(self).customers@[id as int];
                    &&& old(self).withdraw_error(id as int, amount@, now) is None
                    &&& out == amount
                    &&& final(self).vault@ == old(self).vault@ - amount@
                    &&& final(self).customers@ == old(self).customers@.update(
                        id as int,
                        Customer { account: c.account.spec_debit(amount@, now), ..c },
                    )
                    &&& final(self).initial_fund_amount == old(self).initial_fund_amount
                    &&& final(self).defaults == old(self).defaults
                    &&& final(self).epoch == now
                },
                Err(e) => {
                    &&& old(self).withdraw_error(id as int, amount@, now) == Some(e)
                    &&& *final(self) == *old(self)
                },
            },
    {
        if id >= self.customers.len() {
            return Err(LedgerError::UnknownIdentity);
        }
        let customer = self.customers[id];
        if customer.known_since.is_none() {
            return Err(LedgerError::NotVerified);
        }
        if amount.attos > self.vault.attos {
            return Err(LedgerError::InsufficientFunds);
        }
        if amount.attos <= 0 {
            return Err(LedgerError::InvalidAmount);
        }
        let account = customer.account.debit(amount, now)?;
        self.customers[id] = Customer { account, ..customer };
        self.vault = Decimal { attos: self.vault.attos - amount.attos };
        self.epoch = now;
        proof {
            assert forall|i: int| 0 <= i < self.customers@.len() implies {
                let c = #[trigger] self.customers@[i];
                &&& c.account.wf()
                &&& c.account.debit.last_update <= self.epoch
                &&& c.account.credit.last_update <= self.epoch
            } by {
                if i != id {
                    assert(old(self).customers@[i] == self.customers@[i]);
                }
            }
        }
        Ok(amount)
    }

    /// A snapshot of the customer `id`, or `UnknownIdentity`.
    pub fn customer(&self, id: usize) -> (r: Result<Customer, LedgerError>)
        ensures
            match r {
                Ok(c) => id < self.customers@.len() && c == self.customers@[id as int],
                Err(e) => e == LedgerError::UnknownIdentity && id >= self.customers@.len(),
            },
    {
        if id >= self.customers.len() {
            return Err(LedgerError::UnknownIdentity);
        }
        Ok(self.customers[id])
    }

    /// Marks the customer `id` verified at `now`. Fails, changing nothing,
    /// with `UnknownIdentity`, or with `AlreadyKnown` when it was verified
    /// before.
    pub fn set_customer_known(&mut self, id: usize, now: u64) -> (r: Result<(), LedgerError>)
        requires
            old(self).wf(),
            now >= old(self).epoch,
        ensures
            final(self).wf(),
            id >= old(self).customers@.len() ==> r == Err::<(), LedgerError>(
                LedgerError::UnknownIdentity,
            ) && *final(self) == *old(self),
            id < old(self).customers@.len() ==> {
                let c = old(self).customers@[id as int];
                match c.known_since {
                    Some(_) => {
                        &&& r == Err::<(), LedgerError>(LedgerError::AlreadyKnown)
                        &&& *final(self) == *old(self)
                    },
                    None => {
                        &&& r is Ok
                        &&& final(self).customers@ == old(self).customers@.update(
                            id as int,
                            Customer { known_since: Some(now), ..c },
                        )
                        &&& final(self).vault == old(self).vault
                        &&& final(self).initial_fund_amount == old(self).initial_fund_amount
                        &&& final(self).defaults == old(self).defaults
                        &&& final(self).epoch == now
                    },
                }
            },
    {
        if id >= self.customers.len() {
            return Err(LedgerError::UnknownIdentity);
        }
        let mut customer = self.customers[id];
        customer.mark_known(now)?;
        self.customers[id] = customer;
        self.epoch = now;
        proof {
            assert forall|i: int| 0 <= i < self.customers@.len() implies {
                let c = #[trigger] self.customers@[i];
                &&& c.account.wf()
                &&& c.account.debit.last_update <= self.epoch
                &&& c.account.credit.last_update <= self.epoch
            } by {
                if i != id {
                    assert(old(self).customers@[i] == self.customers@[i]);
                }
            }
        }
        Ok(())
    }
}

} // verus!
