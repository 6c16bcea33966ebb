//! A role-gated fungible-asset ledger.
//!
//! The crate models, per token definition, the aggregate supply and policy
//! (`TokenInfo`), per-holder balance records (`TokenHolder`), linear vesting
//! (`VestingSchedule`), and the access-control layer that gates every
//! mutating operation (`AccessControl`).  Project, collaboration and
//! resource records are simple bookkeeping kept in `records`.

use vstd::prelude::*;

pub mod access_control;
pub mod records;
pub mod supply;
pub mod token_instructions;
pub mod token_standards;

verus! {

/// An authenticated identity: the holder of balances and roles.  The ledger
/// only ever compares identities for equality, so an identity is carried as
/// one plain number chosen by the surrounding runtime.
#[derive(Clone, Copy, PartialEq, Eq, Structural, Debug, Hash)]
pub struct Pubkey {
    pub id: u64,
}

} // verus!
