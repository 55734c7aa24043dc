use vstd::prelude::*;

use crate::balance::{accrued, Balance, MAX_RATE};
use crate::decimal::Decimal;
use crate::error::LedgerError;

verus! {

/// The rates and ceilings every new account starts with.
#[derive(Clone, Copy, Debug, PartialEq, Eq, Structural)]
pub struct Defaults {
    pub credit_interest_rate: Decimal,
    pub credit_limit: Decimal,
    pub debit_interest_rate: Decimal,
    pub debit_limit: Decimal,
}

impl Defaults {
    /// Rates lie in `[0, MAX_RATE]` and ceilings are positive.
    pub open spec fn wf(&self) -> bool {
        &&& 0 <= self.credit_interest_rate@ <= MAX_RATE
        &&& 0 <= self.debit_interest_rate@ <= MAX_RATE
        &&& self.credit_limit@ > 0
        &&& self.debit_limit@ > 0
    }

    pub fn new(
        credit_interest_rate: Decimal,
        credit_limit: Decimal,
        debit_interest_rate: Decimal,
        debit_limit: Decimal,
    ) -> (r: Defaults)
        requires
            0 <= credit_interest_rate@ <= MAX_RATE,
            0 <= debit_interest_rate@ <= MAX_RATE,
            credit_limit@ > 0,
            debit_limit@ > 0,
        ensures
            r.wf(),
            r == (Defaults { credit_interest_rate, credit_limit, debit_interest_rate, debit_limit }),
    {
        Defaults { credit_interest_rate, credit_limit, debit_interest_rate, debit_limit }
    }
}

/// The larger of `x` and zero.
pub open spec fn pos_part(x: int) -> int {
    if x > 0 { x } else { 0 }
}

/// One signed position split into a debit side (the customer owes the
/// ledger) and a credit side (the ledger owes the customer).
#[derive(Clone, Copy, Debug, PartialEq, Eq, Structural)]
pub struct BankAccount {
    pub debit: Balance,
    pub credit: Balance,
}

impl BankAccount {
    pub open spec fn wf(&self) -> bool {
        self.debit.wf() && self.credit.wf()
    }

    /// At most one side is nonzero.
    pub open spec fn exclusive(&self) -> bool {
        self.debit.balance@ * self.credit.balance@ == 0
    }

    /// `debit − credit`: positive when the customer owes the ledger.
    pub open spec fn signed(&self) -> int {
        self.debit.balance@ - self.credit.balance@
    }

    /// Whether moving the signed position to `target` at `now` keeps both
    /// sides under their ceilings.
    pub open spec fn update_ok(&self, target: int, now: u64) -> bool {
        &&& self.debit.next_value(pos_part(target), now) < self.debit.limit@
        &&& self.credit.next_value(pos_part(-target), now) < self.credit.limit@
    }

    /// The account that moving the signed position to `target` at `now`
    /// yields when it succeeds.
    pub open spec fn spec_new_balance(&self, target: int, now: u64) -> BankAccount {
        BankAccount {
            debit: self.debit.spec_new_balance(pos_part(target), now),
            credit: self.credit.spec_new_balance(pos_part(-target), now),
        }
    }

    pub open spec fn spec_credit(&self, amount: int, now: u64) -> BankAccount {
        self.spec_new_balance(self.signed() - amount, now)
    }

    pub open spec fn spec_debit(&self, amount: int, now: u64) -> BankAccount {
        self.spec_new_balance(self.signed() + amount, now)
    }

    /// Neither side's update can leave the pair with both sides nonzero:
    /// a side that is given up accrues nothing.
    pub open spec fn keeps_exclusive(&self, target: int, now: u64) -> bool {
        &&& target > 0 ==> self.credit.interest(now) == 0
        &&& target < 0 ==> self.debit.interest(now) == 0
    }

    /// The account `new` builds from `defaults` at `now`.
    pub open spec fn fresh(defaults: Defaults, now: u64) -> BankAccount {
        BankAccount {
            debit: Balance {
                balance: Decimal { attos: 0 },
                limit: defaults.debit_limit,
                interest_rate: defaults.debit_interest_rate,
                last_update: now,
            },
            credit: Balance {
                balance: Decimal { attos: 0 },
                limit: defaults.credit_limit,
                interest_rate: defaults.credit_interest_rate,
                last_update: now,
            },
        }
    }

    /// Two zero sides configured from `defaults`, last updated at `now`.
    pub fn new(defaults: &Defaults, now: u64) -> (r: BankAccount)
        requires
            defaults.wf(),
        ensures
            r == BankAccount::fresh(*defaults, now),
            r.wf(),
            r.exclusive(),
            r.signed() == 0,
            r.debit.balance@ == 0,
            r.credit.balance@ == 0,
            r.debit.interest_rate == defaults.debit_interest_rate,
            r.debit.limit == defaults.debit_limit,
            r.credit.interest_rate == defaults.credit_interest_rate,
            r.credit.limit == defaults.credit_limit,
            r.debit.last_update == now,
            r.credit.last_update == now,
    {
        let r = BankAccount {
            debit: Balance::new(defaults.debit_interest_rate, defaults.debit_limit, now),
            credit: Balance::new(defaults.credit_interest_rate, defaults.credit_limit, now),
        };
        assert(0int * 0int == 0);
        r
    }

    /// Moves the signed position to `target`: the debit side to
    /// `max(target, 0)` and the credit side to `|min(target, 0)|`, each plus
    /// the interest it accrued. Both sides are updated, and the whole update
    /// fails with `LimitExceeded` when either side would reach its ceiling.
    pub fn new_balance(&self, target: Decimal, now: u64) -> (r: Result<BankAccount, LedgerError>)
        requires
            self.wf(),
            now >= self.debit.last_update,
            now >= self.credit.last_update,
        ensures
            match r {
                Ok(a) => {
                    &&& self.update_ok(target@, now)
                    &&& a == self.spec_new_balance(target@, now)
                    &&& a.wf()
                    &&& a.debit.balance@ == self.debit.next_value(pos_part(target@), now)
                    &&& a.credit.balance@ == self.credit.next_value(pos_part(-target@), now)
                    &&& (self.exclusive() && self.keeps_exclusive(target@, now)) ==> a.exclusive()
                },
                Err(e) => e == LedgerError::LimitExceeded && !self.update_ok(target@, now),
            },
    {
        proof {
            crate::balance::lemma_accrued_nonneg(
                self.credit.balance@,
                self.credit.interest_rate@,
                now - self.credit.last_update,
            );
        }
        let debit_target = if target.attos > 0 { target } else { Decimal::zero() };
        if target.attos == i128::MIN {
            return Err(LedgerError::LimitExceeded);
        }
        let credit_target = if target.attos < 0 {
            Decimal { attos: -target.attos }
        } else {
            Decimal::zero()
        };
        let debit = self.debit.new_balance(debit_target, now)?;
        let credit = self.credit.new_balance(credit_target, now)?;
        let r = BankAccount { debit, credit };
        proof {
            if self.exclusive() && self.keeps_exclusive(target@, now) {
                lemma_update_keeps_exclusive(*self, target@, now);
            }
        }
        Ok(r)
    }

    /// `debit − credit`.
    pub fn signed_balance(&self) -> (r: Decimal)
        requires
            self.wf(),
        ensures
            r@ == self.signed(),
    {
        Decimal { attos: self.debit.balance.attos - self.credit.balance.attos }
    }

    /// The magnitude of the signed position.
    pub fn balance(&self) -> (r: Decimal)
        requires
            self.wf(),
        ensures
            r@ == if self.signed() >= 0 { self.signed() } else { -self.signed() },
    {
        let s = self.signed_balance();
        if s.attos >= 0 { s } else { Decimal { attos: -s.attos } }
    }

    /// `"CR"` when the ledger owes the customer (or nothing is owed), else `"DR"`.
    pub fn balance_type(&self) -> (r: String)
        requires
            self.wf(),
        ensures
            r@ == (if self.signed() <= 0 { "CR"@ } else { "DR"@ }),
    {
        if self.signed_balance().attos <= 0 {
            "CR".to_owned()
        } else {
            "DR".to_owned()
        }
    }

    /// Moves the position `amount` towards credit.
    pub fn credit(&self, amount: Decimal, now: u64) -> (r: Result<BankAccount, LedgerError>)
        requires
            self.wf(),
            now >= self.debit.last_update,
            now >= self.credit.last_update,
        ensures
            match r {
                Ok(a) => {
                    &&& self.update_ok(self.signed() - amount@, now)
                    &&& a == self.spec_credit(amount@, now)
                    &&& a.wf()
                    &&& a.signed() == self.debit.interest(now) - self.credit.interest(now)
                        + self.signed() - amount@
                },
                Err(e) => e == LedgerError::LimitExceeded && !self.update_ok(
                    self.signed() - amount@,
                    now,
                ),
            },
    {
        let s = self.signed_balance();
        match s.attos.checked_sub(amount.attos) {
            Some(t) => self.new_balance(Decimal { attos: t }, now),
            None => {
                proof { self.lemma_out_of_range_fails(self.signed() - amount@, now); }
                Err(LedgerError::LimitExceeded)
            },
        }
    }

    /// Moves the position `amount` towards debit.
    pub fn debit(&self, amount: Decimal, now: u64) -> (r: Result<BankAccount, LedgerError>)
        requires
            self.wf(),
            now >= self.debit.last_update,
            now >= self.credit.last_update,
        ensures
            match r {
                Ok(a) => {
                    &&& self.update_ok(self.signed() + amount@, now)
                    &&& a == self.spec_debit(amount@, now)
                    &&& a.wf()
                    &&& a.signed() == self.debit.interest(now) - self.credit.interest(now)
                        + self.signed() + amount@
                },
                Err(e) => e == LedgerError::LimitExceeded && !self.update_ok(
                    self.signed() + amount@,
                    now,
                ),
            },
    {
        let s = self.signed_balance();
        match s.attos.checked_add(amount.attos) {
            Some(t) => self.new_balance(Decimal { attos: t }, now),
            None => {
                proof { self.lemma_out_of_range_fails(self.signed() + amount@, now); }
                Err(LedgerError::LimitExceeded)
            },
        }
    }

    /// A target whose magnitude does not fit in an `i128` reaches a ceiling.
    proof fn lemma_out_of_range_fails(&self, target: int, now: u64)
        requires
            self.wf(),
            now >= self.debit.last_update,
            now >= self.credit.last_update,
            target > i128::MAX || target < i128::MIN,
        ensures
            !self.update_ok(target, now),
    {
        crate::balance::lemma_accrued_nonneg(
            self.debit.balance@,
            self.debit.interest_rate@,
            now - self.debit.last_update,
        );
        crate::balance::lemma_accrued_nonneg(
            self.credit.balance@,
            self.credit.interest_rate@,
            now - self.credit.last_update,
        );
    }
}

/// A zero position accrues no interest.
proof fn lemma_zero_accrues_nothing(rate: int, elapsed: int)
    ensures
        accrued(0, rate, elapsed) == 0,
{
    assert(0 * rate == 0);
    assert(0int / (crate::decimal::SCALE as int) == 0);
}

/// An update of an account with at most one nonzero side keeps at most one
/// side nonzero, provided the side that is given up accrues nothing.
pub proof fn lemma_update_keeps_exclusive(acct: BankAccount, target: int, now: u64)
    requires
        acct.wf(),
        acct.exclusive(),
        now >= acct.debit.last_update,
        now >= acct.credit.last_update,
        acct.update_ok(target, now),
        acct.keeps_exclusive(target, now),
    ensures
        acct.spec_new_balance(target, now).exclusive(),
{
    lemma_zero_accrues_nothing(acct.debit.interest_rate@, now - acct.debit.last_update);
    lemma_zero_accrues_nothing(acct.credit.interest_rate@, now - acct.credit.last_update);
    let d = acct.debit.balance@;
    let c = acct.credit.balance@;
    assert(d == 0 || c == 0) by (nonlinear_arith)
        requires d * c == 0;
    crate::balance::lemma_accrued_nonneg(d, acct.debit.interest_rate@, now - acct.debit.last_update);
    crate::balance::lemma_accrued_nonneg(c, acct.credit.interest_rate@, now - acct.credit.last_update);
    let r = acct.spec_new_balance(target, now);
    assert(r.debit.balance@ == 0 || r.credit.balance@ == 0);
}

/// With no epoch elapsed on either side, crediting an amount and then
/// debiting the same amount restores the signed position, whenever both
/// updates stay under the ceilings.
pub proof fn lemma_credit_debit_round_trip(acct: BankAccount, amount: int, now: u64)
    requires
        acct.wf(),
        acct.debit.last_update == now,
        acct.credit.last_update == now,
        acct.update_ok(acct.signed() - amount, now),
        acct.spec_credit(amount, now).update_ok(acct.spec_credit(amount, now).signed() + amount, now),
    ensures
        acct.spec_credit(amount, now).spec_debit(amount, now).signed() == acct.signed(),
{
    let mid = acct.spec_credit(amount, now);
    let t = acct.signed() - amount;
    assert(mid.debit.balance@ == pos_part(t));
    assert(mid.credit.balance@ == pos_part(-t));
    assert(mid.signed() == t);
    let fin = mid.spec_debit(amount, now);
    assert(fin.debit.balance@ == pos_part(acct.signed()));
    assert(fin.credit.balance@ == pos_part(-acct.signed()));
}

} // verus!
