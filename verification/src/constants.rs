//! Protocol-wide constants: curve seed defaults, fee rates, and the
//! graduation threshold.
use vstd::prelude::*;

verus! {

/// Quote units per whole quote coin.
pub const LAMPORTS_PER_SOL: u64 = 1_000_000_000;

/// Decimal places of every minted base asset.
pub const DEFAULT_DECIMALS: u8 = 6;

/// Base units per whole base token.
pub const TOKEN_DECIMALS_FACTOR: u64 = 1_000_000;

/// Seed value for a new curve's virtual quote reserves.
pub const DEFAULT_VIRTUAL_SOL: u64 = 30 * LAMPORTS_PER_SOL;

/// Seed value for a new curve's virtual base reserves.
pub const DEFAULT_VIRTUAL_TOKENS: u64 = 1_073_000_000 * TOKEN_DECIMALS_FACTOR;

/// Base units escrowed and sellable through a new curve.
pub const DEFAULT_REAL_TOKENS: u64 = 793_100_000 * TOKEN_DECIMALS_FACTOR;

/// Total base units minted for every new asset.
pub const DEFAULT_TOKEN_SUPPLY: u64 = 1_000_000_000 * TOKEN_DECIMALS_FACTOR;

/// Basis points in one whole: 10_000 bps = 100%.
pub const BPS_DENOMINATOR: u64 = 10_000;

/// Largest trade fee the configuration accepts, in basis points (50%).
pub const MAX_TRADE_FEE_BPS: u16 = 5_000;

/// Default fee taken from every trade's gross amount, in basis points (1%).
pub const DEFAULT_TRADE_FEE_BPS: u16 = 100;

/// Default share of the fee paid to the asset's creator (65%).
pub const DEFAULT_CREATOR_SHARE_BPS: u16 = 6_500;

/// Default share of the remaining fee paid to a referrer (10%).
pub const DEFAULT_REFERRAL_SHARE_BPS: u16 = 1_000;

/// Real quote reserves at which a curve graduates.
pub const DEFAULT_GRADUATION_THRESHOLD: u64 = 85 * LAMPORTS_PER_SOL;

/// Flat fee deducted from curve custody during migration.
pub const MIGRATION_FEE: u64 = LAMPORTS_PER_SOL / 2;

/// High half of the fixed deployer identity allowed to initialize the
/// global configuration.
pub const DEPLOYER_ID_HI: u128 = 101_631_617_309_859_838_942_020_815_779_870_358_048;

/// Low half of the fixed deployer identity.
pub const DEPLOYER_ID_LO: u128 = 308_860_858_376_465_788_508_638_333_892_108_465_527;

} // verus!
