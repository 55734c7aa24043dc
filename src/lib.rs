//! A custodial ledger: per-customer signed positions made of a debit and a
//! credit side, with lazily accrued simple interest, ceilings on each side,
//! and a know-your-customer gate in front of every movement of funds.
use vstd::prelude::*;

pub mod error;
pub mod decimal;
pub mod balance;
pub mod account;
pub mod customer;
pub mod bank;
