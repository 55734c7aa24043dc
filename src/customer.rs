use vstd::prelude::*;

use crate::account::{BankAccount, Defaults};
use crate::error::LedgerError;

verus! {

/// `s` without its leading and trailing white space.
pub uninterp spec fn trimmed(s: Seq<char>) -> Seq<char>;

/// Relies on `str::trim`: the result depends on the characters of `s`
/// alone, and an empty string stays empty.
#[verifier::external_body]
fn trim(s: &str) -> (r: String)
    ensures
        r@ == trimmed(s@),
        s@.len() == 0 ==> r@.len() == 0,
{
    s.trim().to_string()
}

/// The names a customer registers under.
#[derive(Clone, Debug, PartialEq, Eq)]
pub struct CustomerRegistration {
    pub first_name: String,
    pub last_name: String,
}

impl CustomerRegistration {
    /// Trims both names and fails with `InvalidName` when either is empty
    /// after trimming.
    pub fn new(first_name: String, last_name: String) -> (r: Result<
        CustomerRegistration,
        LedgerError,
    >)
        ensures
            match r {
                Ok(reg) => {
                    &&& trimmed(first_name@).len() > 0
                    &&& trimmed(last_name@).len() > 0
                    &&& reg.first_name@ == trimmed(first_name@)
                    &&& reg.last_name@ == trimmed(last_name@)
                },
                Err(e) => e == LedgerError::InvalidName && (trimmed(first_name@).len() == 0
                    || trimmed(last_name@).len() == 0),
            },
    {
        let first = trim(first_name.as_str());
        let last = trim(last_name.as_str());
        CustomerRegistration::from_trimmed(first, last)
    }

    /// Builds a registration from names that were already trimmed: fails with
    /// `InvalidName` exactly when either is empty.
    pub fn from_trimmed(first_name: String, last_name: String) -> (r: Result<
        CustomerRegistration,
        LedgerError,
    >)
        ensures
            match r {
                Ok(reg) => {
                    &&& first_name@.len() > 0
                    &&& last_name@.len() > 0
                    &&& reg.first_name@ == first_name@
                    &&& reg.last_name@ == last_name@
                },
                Err(e) => e == LedgerError::InvalidName && (first_name@.len() == 0
                    || last_name@.len() == 0),
            },
    {
        if first_name.as_str().is_empty() || last_name.as_str().is_empty() {
            return Err(LedgerError::InvalidName);
        }
        Ok(CustomerRegistration { first_name, last_name })
    }
}

/// A customer: when it was verified, if it was, when it registered, and its
/// account.
#[derive(Clone, Copy, Debug, PartialEq, Eq, Structural)]
pub struct Customer {
    pub known_since: Option<u64>,
    pub customer_since: u64,
    pub account: BankAccount,
}

impl Customer {
    /// An unverified customer registered at `now`, with a fresh account.
    pub fn new(defaults: &Defaults, now: u64) -> (r: Customer)
        requires
            defaults.wf(),
        ensures
            r == (Customer {
                known_since: None,
                customer_since: now,
                account: BankAccount::fresh(*defaults, now),
            }),
            r.account.wf(),
            r.account.exclusive(),
    {
        Customer { known_since: None, customer_since: now, account: BankAccount::new(defaults, now) }
    }

    /// Marks the customer verified at `now`. A customer is verified at most
    /// once: a second call fails with `AlreadyKnown` and changes nothing.
    pub fn mark_known(&mut self, now: u64) -> (r: Result<(), LedgerError>)
        ensures
            match old(self).known_since {
                Some(_) => r == Err::<(), LedgerError>(LedgerError::AlreadyKnown) && *final(self)
                    == *old(self),
                None => r is Ok && *final(self) == (Customer {
                    known_since: Some(now),
                    ..*old(self)
                }),
            },
    {
        if self.known_since.is_some() {
            return Err(LedgerError::AlreadyKnown);
        }
        self.known_since = Some(now);
        Ok(())
    }
}

} // verus!
