use vstd::prelude::*;
use vstd::arithmetic::div_mod::{lemma_fundamental_div_mod, lemma_hoist_over_denominator};

use crate::decimal::{Decimal, SCALE};
use crate::error::LedgerError;

verus! {

/// Largest interest rate a balance may carry: one hundred whole units per
/// unit and epoch.
pub const MAX_RATE: i128 = 100 * SCALE;

/// Simple interest on `balance` at `rate` (both in attos) over `elapsed`
/// epochs. The per-epoch interest is the fixed-point product of the two,
/// rounded down to a whole atto.
pub open spec fn accrued(balance: int, rate: int, elapsed: int) -> int {
    (balance * rate / (SCALE as int)) * elapsed
}

/// A single-sided monetary position with its own interest rate and ceiling.
#[derive(Clone, Copy, Debug, PartialEq, Eq, Structural)]
pub struct Balance {
    pub balance: Decimal,
    pub limit: Decimal,
    pub interest_rate: Decimal,
    pub last_update: u64,
}

impl Balance {
    /// The position is non-negative and strictly under its ceiling, and the
    /// rate is a non-negative fraction no larger than `MAX_RATE`.
    pub open spec fn wf(&self) -> bool {
        &&& 0 <= self.balance@ < self.limit@
        &&& 0 <= self.interest_rate@ <= MAX_RATE
    }

    /// Interest accrued on the current position from `last_update` until `now`.
    pub open spec fn interest(&self, now: u64) -> int {
        accrued(self.balance@, self.interest_rate@, now - self.last_update)
    }

    /// The position that an update towards `target` at `now` would produce.
    pub open spec fn next_value(&self, target: int, now: u64) -> int {
        self.interest(now) + target
    }

    /// The balance an update towards `target` at `now` yields when it succeeds.
    pub open spec fn spec_new_balance(&self, target: int, now: u64) -> Balance {
        Balance {
            balance: Decimal { attos: self.next_value(target, now) as i128 },
            last_update: now,
            ..*self
        }
    }

    /// A zero position with the given rate and ceiling, last updated at `now`.
    pub fn new(interest_rate: Decimal, limit: Decimal, now: u64) -> (r: Balance)
        requires
            0 <= interest_rate@ <= MAX_RATE,
            limit@ > 0,
        ensures
            r.wf(),
            r.balance@ == 0,
            r.limit == limit,
            r.interest_rate == interest_rate,
            r.last_update == now,
    {
        Balance { balance: Decimal::zero(), limit, interest_rate, last_update: now }
    }

    /// Epochs since the last update.
    pub fn elapsed(&self, now: u64) -> (r: u64)
        requires
            now >= self.last_update,
        ensures
            r == now - self.last_update,
    {
        now - self.last_update
    }

    /// Moves the position to `target` plus the interest accrued on the prior
    /// position since the last update. Fails with `LimitExceeded` when that
    /// sum reaches the ceiling; otherwise the rate and ceiling are kept and
    /// `last_update` becomes `now`.
    pub fn new_balance(&self, target: Decimal, now: u64) -> (r: Result<Balance, LedgerError>)
        requires
            self.wf(),
            now >= self.last_update,
            target@ >= 0,
        ensures
            match r {
                Ok(b) => {
                    &&& self.next_value(target@, now) < self.limit@
                    &&& b == self.spec_new_balance(target@, now)
                    &&& b.balance@ == self.next_value(target@, now)
                    &&& b.wf()
                },
                Err(e) => e == LedgerError::LimitExceeded && self.next_value(target@, now)
                    >= self.limit@,
            },
    {
        proof {
            lemma_accrued_nonneg(self.balance@, self.interest_rate@, now - self.last_update);
        }
        let interest = match accrued_interest(
            self.balance.attos,
            self.interest_rate.attos,
            self.elapsed(now),
        ) {
            Some(i) => i,
            None => return Err(LedgerError::LimitExceeded),
        };
        let sum = match interest.checked_add(target.attos) {
            Some(s) => s,
            None => return Err(LedgerError::LimitExceeded),
        };
        if sum >= self.limit.attos {
            return Err(LedgerError::LimitExceeded);
        }
        Ok(Balance { balance: Decimal { attos: sum }, last_update: now, ..*self })
    }
}

/// Interest accrued is never negative.
pub proof fn lemma_accrued_nonneg(balance: int, rate: int, elapsed: int)
    requires
        balance >= 0,
        rate >= 0,
        elapsed >= 0,
    ensures
        accrued(balance, rate, elapsed) >= 0,
{
    assert(balance * rate >= 0) by (nonlinear_arith)
        requires balance >= 0, rate >= 0;
    let per = balance * rate / (SCALE as int);
    assert(per >= 0);
    assert(per * elapsed >= 0) by (nonlinear_arith)
        requires per >= 0, elapsed >= 0;
}

/// With a positive balance whose per-epoch interest is at least one atto,
/// accrued interest grows strictly with the number of elapsed epochs.
pub proof fn lemma_accrued_strictly_increasing(balance: int, rate: int, e1: int, e2: int)
    requires
        balance > 0,
        rate > 0,
        balance * rate >= SCALE,
        0 <= e1 < e2,
    ensures
        accrued(balance, rate, e1) < accrued(balance, rate, e2),
{
    let per = balance * rate / (SCALE as int);
    assert(per >= 1);
    assert(per * e1 < per * e2) by (nonlinear_arith)
        requires per >= 1, e1 < e2;
}

/// Every balance an update produces stays inside the invariant: a
/// well-formed balance moved towards a non-negative target, when the update
/// stays under the ceiling, is again non-negative and under its ceiling.
pub proof fn lemma_update_stays_in_bounds(b: Balance, target: int, now: u64)
    requires
        b.wf(),
        target >= 0,
        now >= b.last_update,
        b.next_value(target, now) < b.limit@,
    ensures
        b.spec_new_balance(target, now).wf(),
        0 <= b.spec_new_balance(target, now).balance@ < b.spec_new_balance(target, now).limit@,
{
    lemma_accrued_nonneg(b.balance@, b.interest_rate@, now - b.last_update);
}

/// For a positive balance at a positive rate whose per-epoch interest is at
/// least one atto, an update towards the same target yields strictly more
/// the later it is made.
pub proof fn lemma_update_grows_with_time(b: Balance, target: int, now1: u64, now2: u64)
    requires
        b.balance@ > 0,
        b.interest_rate@ > 0,
        b.balance@ * b.interest_rate@ >= SCALE,
        b.last_update <= now1 < now2,
    ensures
        b.interest(now1) < b.interest(now2),
        b.next_value(target, now1) < b.next_value(target, now2),
{
    lemma_accrued_strictly_increasing(
        b.balance@,
        b.interest_rate@,
        now1 - b.last_update,
        now2 - b.last_update,
    );
}

/// The fixed-point product `balance * rate`, rounded down to a whole atto, or
/// `None` when it does not fit in an `i128`.
fn mul_floor(balance: i128, rate: i128) -> (r: Option<i128>)
    requires
        balance >= 0,
        0 <= rate <= MAX_RATE,
    ensures
        match r {
            Some(x) => x == balance * rate / (SCALE as int),
            None => balance * rate / (SCALE as int) > i128::MAX,
        },
{
    let hi_part = balance / SCALE;
    let lo_part = balance % SCALE;
    proof {
        lemma_fundamental_div_mod(balance as int, SCALE as int);
        assert(lo_part * rate <= SCALE * MAX_RATE) by (nonlinear_arith)
            requires 0 <= lo_part < SCALE, 0 <= rate <= MAX_RATE;
        assert(lo_part * rate >= 0) by (nonlinear_arith)
            requires 0 <= lo_part, 0 <= rate;
        assert(hi_part * rate >= 0) by (nonlinear_arith)
            requires 0 <= hi_part, 0 <= rate;
        lemma_hoist_over_denominator(lo_part * rate, hi_part * rate, SCALE as nat);
        assert(balance * rate == lo_part * rate + (hi_part * rate) * SCALE) by (nonlinear_arith)
            requires balance == SCALE * hi_part + lo_part;
    }
    let lo = lo_part * rate / SCALE;
    match hi_part.checked_mul(rate) {
        Some(hi) => hi.checked_add(lo),
        None => None,
    }
}

/// Interest accrued on `balance` at `rate` over `elapsed` epochs, or `None`
/// when it does not fit in an `i128`.
fn accrued_interest(balance: i128, rate: i128, elapsed: u64) -> (r: Option<i128>)
    requires
        balance >= 0,
        0 <= rate <= MAX_RATE,
    ensures
        match r {
            Some(x) => x == accrued(balance as int, rate as int, elapsed as int),
            None => accrued(balance as int, rate as int, elapsed as int) > i128::MAX,
        },
{
    if elapsed == 0 {
        assert(accrued(balance as int, rate as int, 0) == 0);
        return Some(0);
    }
    let per = mul_floor(balance, rate);
    proof {
        let p = balance * rate / (SCALE as int);
        assert(p >= 0) by {
            assert(balance * rate >= 0) by (nonlinear_arith)
                requires balance >= 0, rate >= 0;
        }
        assert(p * elapsed >= p) by (nonlinear_arith)
            requires p >= 0, elapsed >= 1;
    }
    match per {
        Some(p) => p.checked_mul(elapsed as i128),
        None => None,
    }
}

} // verus!
