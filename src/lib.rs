//! A time-weighted reward ledger for staked non-fungible assets.
//!
//! `reward` computes what a tier bucket earns; `ledger` settles a stake
//! account and keeps its tier buckets; `vault` keeps the custody entries of an
//! owner; `rewarder` holds a collection's policy, whitelist and provenance
//! checks; `staking` puts them together into the deposit, withdrawal, claim
//! and balance operations. Custody transfers and reward issuance are left to
//! the caller, who keeps the updated records only once those succeeded.
use vstd::prelude::*;

pub mod errors;
pub mod ledger;
pub mod reward;
pub mod rewarder;
pub mod staking;
pub mod state;
pub mod vault;

verus! {

} // verus!
