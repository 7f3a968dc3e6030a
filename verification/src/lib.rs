//! Bonding-curve token exchange core.
//!
//! Each newly minted asset trades against a constant-product curve seeded
//! with virtual reserves.  Every trade pays a fee that is split between the
//! asset's creator, an optional referrer, and the protocol vault.  Once the
//! curve has accumulated enough real collateral it graduates: trading stops
//! and a one-time migration hands the liquidity to an external market maker.
//!
//! This crate holds the exact-arithmetic pricing, fee-splitting, and
//! lifecycle logic, each operation with a full contract.  Account plumbing,
//! asset transfers, and the external pool-creation call live in the host
//! around the library; they hand plain values in and carry the returned
//! transfer plans out.
use vstd::prelude::*;

pub mod constants;
pub mod errors;
pub mod identity;
pub mod math;
pub mod config;
pub mod fees;
pub mod events;
pub mod referral;
pub mod curve;
pub mod migration;

verus! {

} // verus!
