//! Token vesting: a depositor locks a balance of one token into an escrow
//! that releases it to a beneficiary tranche by tranche.
//!
//! The library holds the escrow record and decides every operation on it.
//! Each successful operation hands back the one token transfer that the
//! ledger must carry out; performing it is left to the caller.

pub mod key;
pub mod schedule;
pub mod account;
pub mod authority;
pub mod instructions;
pub mod laws;
