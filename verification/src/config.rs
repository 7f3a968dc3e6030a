//! Process-wide configuration: fee rates, curve seed values, the
//! graduation threshold, and the pause flag.
//!
//! The record is created once by `initialize` and mutated only through
//! `update_config`, which validates each supplied field independently and
//! applies either every update or none.  Every trade reads one consistent
//! snapshot of this record.
use vstd::prelude::*;
use crate::constants::BPS_DENOMINATOR;
use crate::constants::DEFAULT_CREATOR_SHARE_BPS;
use crate::constants::DEFAULT_DECIMALS;
use crate::constants::DEFAULT_GRADUATION_THRESHOLD;
use crate::constants::DEFAULT_REAL_TOKENS;
use crate::constants::DEFAULT_REFERRAL_SHARE_BPS;
use crate::constants::DEFAULT_TOKEN_SUPPLY;
use crate::constants::DEFAULT_TRADE_FEE_BPS;
use crate::constants::DEFAULT_VIRTUAL_SOL;
use crate::constants::DEFAULT_VIRTUAL_TOKENS;
use crate::constants::DEPLOYER_ID_HI;
use crate::constants::DEPLOYER_ID_LO;
use crate::constants::MAX_TRADE_FEE_BPS;
use crate::errors::AdminError;
use crate::identity::Identity;

verus! {

/// Whether trading is enabled.  While `Paused`, trades and curve creation
/// are rejected but administrative operations remain allowed.
#[derive(Clone, Copy, Debug, PartialEq, Eq, Structural)]
pub enum ProgramStatus {
    Running,
    Paused,
}

/// The singleton global configuration.
#[derive(Clone, Copy, Debug, PartialEq, Eq, Structural)]
pub struct Global {
    /// The only identity allowed to update this record or withdraw fees.
    pub authority: Identity,
    /// Recipient of protocol fee withdrawals.
    pub fee_receiver: Identity,
    /// Seed for every new curve's virtual quote reserves; always positive.
    pub initial_virtual_sol_reserves: u64,
    /// Seed for every new curve's virtual base reserves; always positive.
    pub initial_virtual_token_reserves: u64,
    /// Base units escrowed and sellable on a new curve; always positive.
    pub initial_real_token_reserves: u64,
    /// Base units minted for every new asset; always positive.
    pub token_total_supply: u64,
    /// Decimal places of every minted base asset.
    pub token_decimal: u8,
    /// Fee taken from every trade's gross amount, in basis points.
    pub trade_fee_bps: u16,
    /// Share of the fee paid to the asset's creator, in basis points.
    pub creator_share_bps: u16,
    /// Share of the remaining fee paid to a referrer, in basis points.
    pub referral_share_bps: u16,
    /// Real quote reserves at which a curve graduates; always positive.
    pub graduation_threshold: u64,
    /// Pause flag.
    pub status: ProgramStatus,
}

/// The supplied value of a partial update, or the current one.
pub open spec fn or_keep<T>(new: Option<T>, cur: T) -> T {
    match new {
        Some(v) => v,
        None => cur,
    }
}

impl Global {
    /// Validity of the configuration: seed values positive, the trade fee
    /// at most 50%, and the creator and referral shares summing to at most
    /// one whole.  Established by `initialize` and preserved by every
    /// accepted update.
    pub open spec fn wf(self) -> bool {
        &&& self.initial_virtual_sol_reserves > 0
        &&& self.initial_virtual_token_reserves > 0
        &&& self.initial_real_token_reserves > 0
        &&& self.token_total_supply > 0
        &&& self.trade_fee_bps <= MAX_TRADE_FEE_BPS
        &&& self.creator_share_bps + self.referral_share_bps <= BPS_DENOMINATOR
        &&& self.graduation_threshold > 0
    }

    /// Whether every supplied field of a partial update passes its
    /// validity rule.  The creator share is checked against the referral
    /// share still in force when it is applied; the referral share is then
    /// checked against the effective creator share.
    pub open spec fn update_ok(
        self,
        new_initial_virtual_sol_reserves: Option<u64>,
        new_initial_virtual_token_reserves: Option<u64>,
        new_initial_real_token_reserves: Option<u64>,
        new_token_total_supply: Option<u64>,
        new_trade_fee_bps: Option<u16>,
        new_creator_share_bps: Option<u16>,
        new_referral_share_bps: Option<u16>,
        new_graduation_threshold: Option<u64>,
    ) -> bool {
        &&& (new_initial_virtual_sol_reserves matches Some(v) ==> v > 0)
        &&& (new_initial_virtual_token_reserves matches Some(v) ==> v > 0)
        &&& (new_initial_real_token_reserves matches Some(v) ==> v > 0)
        &&& (new_token_total_supply matches Some(v) ==> v > 0)
        &&& (new_trade_fee_bps matches Some(v) ==> v <= MAX_TRADE_FEE_BPS)
        &&& (new_creator_share_bps matches Some(v) ==> v + self.referral_share_bps
            <= BPS_DENOMINATOR)
        &&& (new_referral_share_bps matches Some(v) ==> or_keep(
            new_creator_share_bps,
            self.creator_share_bps,
        ) + v <= BPS_DENOMINATOR)
        &&& (new_graduation_threshold matches Some(v) ==> v > 0)
    }

    /// The configuration with every supplied field of a partial update
    /// applied.  The authority and the token decimals are never updated.
    pub open spec fn updated(
        self,
        new_fee_receiver: Option<Identity>,
        new_initial_virtual_sol_reserves: Option<u64>,
        new_initial_virtual_token_reserves: Option<u64>,
        new_initial_real_token_reserves: Option<u64>,
        new_token_total_supply: Option<u64>,
        new_trade_fee_bps: Option<u16>,
        new_creator_share_bps: Option<u16>,
        new_referral_share_bps: Option<u16>,
        new_graduation_threshold: Option<u64>,
        new_status: Option<ProgramStatus>,
    ) -> Global {
        Global {
            authority: self.authority,
            fee_receiver: or_keep(new_fee_receiver, self.fee_receiver),
            initial_virtual_sol_reserves: or_keep(
                new_initial_virtual_sol_reserves,
                self.initial_virtual_sol_reserves,
            ),
            initial_virtual_token_reserves: or_keep(
                new_initial_virtual_token_reserves,
                self.initial_virtual_token_reserves,
            ),
            initial_real_token_reserves: or_keep(
                new_initial_real_token_reserves,
                self.initial_real_token_reserves,
            ),
            token_total_supply: or_keep(new_token_total_supply, self.token_total_supply),
            token_decimal: self.token_decimal,
            trade_fee_bps: or_keep(new_trade_fee_bps, self.trade_fee_bps),
            creator_share_bps: or_keep(new_creator_share_bps, self.creator_share_bps),
            referral_share_bps: or_keep(new_referral_share_bps, self.referral_share_bps),
            graduation_threshold: or_keep(new_graduation_threshold, self.graduation_threshold),
            status: or_keep(new_status, self.status),
        }
    }
}

/// Creates the global configuration with the protocol defaults.  Only the
/// fixed deployer identity may perform this; the host verifies the
/// operator's signature and identity before the call.
pub fn initialize(operator: Identity) -> (g: Global)
    requires
        operator == (Identity { hi: DEPLOYER_ID_HI, lo: DEPLOYER_ID_LO }),
    ensures
        g.wf(),
        g.authority == operator,
        g.fee_receiver == operator,
        g.initial_virtual_sol_reserves == DEFAULT_VIRTUAL_SOL,
        g.initial_virtual_token_reserves == DEFAULT_VIRTUAL_TOKENS,
        g.initial_real_token_reserves == DEFAULT_REAL_TOKENS,
        g.token_total_supply == DEFAULT_TOKEN_SUPPLY,
        g.token_decimal == DEFAULT_DECIMALS,
        g.trade_fee_bps == DEFAULT_TRADE_FEE_BPS,
        g.creator_share_bps == DEFAULT_CREATOR_SHARE_BPS,
        g.referral_share_bps == DEFAULT_REFERRAL_SHARE_BPS,
        g.graduation_threshold == DEFAULT_GRADUATION_THRESHOLD,
        g.status == ProgramStatus::Running,
{
    Global {
        authority: operator,
        fee_receiver: operator,
        initial_virtual_sol_reserves: DEFAULT_VIRTUAL_SOL,
        initial_virtual_token_reserves: DEFAULT_VIRTUAL_TOKENS,
        initial_real_token_reserves: DEFAULT_REAL_TOKENS,
        token_total_supply: DEFAULT_TOKEN_SUPPLY,
        token_decimal: DEFAULT_DECIMALS,
        trade_fee_bps: DEFAULT_TRADE_FEE_BPS,
        creator_share_bps: DEFAULT_CREATOR_SHARE_BPS,
        referral_share_bps: DEFAULT_REFERRAL_SHARE_BPS,
        graduation_threshold: DEFAULT_GRADUATION_THRESHOLD,
        status: ProgramStatus::Running,
    }
}

/// Applies a partial update to the configuration.  Each supplied field is
/// validated independently; on the first violation the call returns
/// `InvalidConfigParam` and leaves the record exactly as it was.  Only the
/// configured authority may perform this; the host verifies the operator's
/// signature before the call.
pub fn update_config(
    global: &mut Global,
    operator: Identity,
    new_fee_receiver: Option<Identity>,
    new_initial_virtual_sol_reserves: Option<u64>,
    new_initial_virtual_token_reserves: Option<u64>,
    new_initial_real_token_reserves: Option<u64>,
    new_token_total_supply: Option<u64>,
    new_trade_fee_bps: Option<u16>,
    new_creator_share_bps: Option<u16>,
    new_referral_share_bps: Option<u16>,
    new_graduation_threshold: Option<u64>,
    new_status: Option<ProgramStatus>,
) -> (r: Result<(), AdminError>)
    requires
        operator == old(global).authority,
    ensures
        r is Ok <==> old(global).update_ok(
            new_initial_virtual_sol_reserves,
            new_initial_virtual_token_reserves,
            new_initial_real_token_reserves,
            new_token_total_supply,
            new_trade_fee_bps,
            new_creator_share_bps,
            new_referral_share_bps,
            new_graduation_threshold,
        ),
        r is Ok ==> *final(global) == old(global).updated(
            new_fee_receiver,
            new_initial_virtual_sol_reserves,
            new_initial_virtual_token_reserves,
            new_initial_real_token_reserves,
            new_token_total_supply,
            new_trade_fee_bps,
            new_creator_share_bps,
            new_referral_share_bps,
            new_graduation_threshold,
            new_status,
        ),
        r matches Err(e) ==> e == AdminError::InvalidConfigParam && *final(global) == *old(global),
        old(global).wf() && r is Ok ==> final(global).wf(),
{
    let mut g = *global;
    if let Some(val) = new_fee_receiver {
        g.fee_receiver = val;
    }
    if let Some(val) = new_initial_virtual_sol_reserves {
        if !(val > 0) {
            return Err(AdminError::InvalidConfigParam);
        }
        g.initial_virtual_sol_reserves = val;
    }
    if let Some(val) = new_initial_virtual_token_reserves {
        if !(val > 0) {
            return Err(AdminError::InvalidConfigParam);
        }
        g.initial_virtual_token_reserves = val;
    }
    if let Some(val) = new_initial_real_token_reserves {
        if !(val > 0) {
            return Err(AdminError::InvalidConfigParam);
        }
        g.initial_real_token_reserves = val;
    }
    if let Some(val) = new_token_total_supply {
        if !(val > 0) {
            return Err(AdminError::InvalidConfigParam);
        }
        g.token_total_supply = val;
    }
    if let Some(val) = new_trade_fee_bps {
        if !(val <= MAX_TRADE_FEE_BPS) {
            return Err(AdminError::InvalidConfigParam);
        }
        g.trade_fee_bps = val;
    }
    if let Some(val) = new_creator_share_bps {
        g.creator_share_bps = val;
        if !(g.creator_share_bps as u32 + g.referral_share_bps as u32 <= BPS_DENOMINATOR as u32) {
            return Err(AdminError::InvalidConfigParam);
        }
    }
    if let Some(val) = new_referral_share_bps {
        g.referral_share_bps = val;
        if !(g.creator_share_bps as u32 + g.referral_share_bps as u32 <= BPS_DENOMINATOR as u32) {
            return Err(AdminError::InvalidConfigParam);
        }
    }
    if let Some(val) = new_graduation_threshold {
        if !(val > 0) {
            return Err(AdminError::InvalidConfigParam);
        }
        g.graduation_threshold = val;
    }
    if let Some(val) = new_status {
        g.status = val;
    }
    *global = g;
    Ok(())
}

/// Amount withdrawable from the protocol fee vault: everything above the
/// reserved minimum the vault must retain to stay a valid account.  Fails
/// with `NotEnoughLamports` when the balance is at or below that floor.
/// Only the configured authority may withdraw, and only to the configured
/// fee receiver; the host verifies both before the call and then moves the
/// returned amount.
pub fn withdraw_fees(
    global: &Global,
    operator: Identity,
    recipient: Identity,
    vault_lamports: u64,
    rent_minimum: u64,
) -> (r: Result<u64, AdminError>)
    requires
        operator == global.authority,
        recipient == global.fee_receiver,
    ensures
        r matches Ok(v) ==> vault_lamports > rent_minimum && v == vault_lamports - rent_minimum,
        r is Err <==> vault_lamports <= rent_minimum,
        r matches Err(e) ==> e == AdminError::NotEnoughLamports,
{
    if vault_lamports <= rent_minimum {
        return Err(AdminError::NotEnoughLamports);
    }
    Ok(vault_lamports - rent_minimum)
}

} // verus!
