//! Rental ledgers for properties: a date-keyed booking ledger for a single
//! house, a multi-unit ledger with a per-unit occupancy lifecycle, and a
//! factory that keeps an ownership registry and plans the provisioning of
//! new ledgers.
use vstd::prelude::*;

pub mod error;
pub mod text;
pub mod house;
pub mod ledger;
pub mod units;
pub mod factory;
pub mod laws;

verus! {

/// An account on the host chain, written as its textual identifier.
pub type AccountId = String;

/// One whole token, in the smallest units that deposits are counted in.
pub const NEAR: u128 = 1_000_000_000_000_000_000_000_000;

} // verus!
