//! Observable notifications.
//!
//! Each successful operation describes its effects in one of these
//! records; the host emits them.  They carry plain values only.
use vstd::prelude::*;
use crate::identity::Identity;

verus! {

/// A trade executed against a curve.
#[derive(Clone, Copy, Debug)]
pub struct TradeEvent {
    pub mint: Identity,
    pub trader: Identity,
    pub is_buy: bool,
    /// Net quote amount moved between the trader and curve custody.
    pub sol_amount: u64,
    /// Base tokens moved.
    pub token_amount: u64,
    /// Gross fee taken from the trade.
    pub fee: u64,
}

/// A new asset and its curve were created.
#[derive(Clone, Debug)]
pub struct CreateEvent {
    pub creator: Identity,
    pub mint: Identity,
    pub name: String,
    pub symbol: String,
    pub uri: String,
}

/// A curve crossed its graduation threshold.
#[derive(Clone, Copy, Debug)]
pub struct CompleteEvent {
    pub mint: Identity,
    pub real_sol_reserves: u64,
}

/// A curve's liquidity was handed to the external market maker.
#[derive(Clone, Copy, Debug)]
pub struct MigrateEvent {
    pub mint: Identity,
    pub pool_state: Identity,
}

} // verus!
