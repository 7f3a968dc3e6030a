//! Three-way fee splitting.
//!
//! Every trade fee is divided between the asset's creator, an optional
//! referrer, and the protocol vault.  The creator's cut is taken from the
//! whole fee; the referrer's cut is taken from what remains; the protocol
//! receives the rest, so any remainder from floor division accrues to the
//! protocol and the three parts always sum to the fee exactly.
use vstd::prelude::*;
use crate::constants::BPS_DENOMINATOR;
use crate::math::fee_amount;
use crate::math::lemma_fee_le_amount;
use crate::math::lemma_wide_product_fits;

verus! {

/// One trade fee divided between its three beneficiaries.
#[derive(Clone, Copy, Debug, PartialEq, Eq, Structural)]
pub struct FeeSplit {
    pub creator_fee: u64,
    pub referral_fee: u64,
    pub protocol_fee: u64,
}

/// The creator's cut: `floor(fee * creator_share_bps / 10_000)`.
pub open spec fn creator_fee_of(fee: int, creator_share_bps: int) -> int {
    fee_amount(fee, creator_share_bps)
}

/// The referrer's cut, taken from what remains after the creator's:
/// `floor((fee - creatorFee) * referral_share_bps / 10_000)` when a
/// referral is present, zero otherwise.
pub open spec fn referral_fee_of(
    fee: int,
    creator_share_bps: int,
    referral_share_bps: int,
    has_referral: bool,
) -> int {
    if has_referral {
        fee_amount(fee - creator_fee_of(fee, creator_share_bps), referral_share_bps)
    } else {
        0
    }
}

/// The protocol's cut: whatever the other two beneficiaries leave.
pub open spec fn protocol_fee_of(
    fee: int,
    creator_share_bps: int,
    referral_share_bps: int,
    has_referral: bool,
) -> int {
    fee - creator_fee_of(fee, creator_share_bps) - referral_fee_of(
        fee,
        creator_share_bps,
        referral_share_bps,
        has_referral,
    )
}

/// Splits `fee` between creator, referrer, and protocol.
///
/// The three parts always sum to `fee` exactly: no rounding leakage, any
/// remainder from floor division accrues to the protocol.
pub fn split_fee(
    fee: u64,
    creator_share_bps: u16,
    referral_share_bps: u16,
    has_referral: bool,
) -> (s: FeeSplit)
    requires
        creator_share_bps + referral_share_bps <= BPS_DENOMINATOR,
    ensures
        s.creator_fee == creator_fee_of(fee as int, creator_share_bps as int),
        s.referral_fee == referral_fee_of(
            fee as int,
            creator_share_bps as int,
            referral_share_bps as int,
            has_referral,
        ),
        s.protocol_fee == protocol_fee_of(
            fee as int,
            creator_share_bps as int,
            referral_share_bps as int,
            has_referral,
        ),
        s.creator_fee + s.referral_fee + s.protocol_fee == fee,
        !has_referral ==> s.referral_fee == 0,
{
    proof {
        lemma_wide_product_fits(fee, creator_share_bps as u64);
        lemma_fee_le_amount(fee as int, creator_share_bps as int);
    }
    let creator_wide = (fee as u128) * (creator_share_bps as u128);
    let creator_fee = (creator_wide / (BPS_DENOMINATOR as u128)) as u64;
    let remaining = fee - creator_fee;
    let referral_fee: u64 = if has_referral {
        proof {
            lemma_wide_product_fits(remaining, referral_share_bps as u64);
            lemma_fee_le_amount(remaining as int, referral_share_bps as int);
        }
        let referral_wide = (remaining as u128) * (referral_share_bps as u128);
        (referral_wide / (BPS_DENOMINATOR as u128)) as u64
    } else {
        0
    };
    let protocol_fee = remaining - referral_fee;
    FeeSplit { creator_fee, referral_fee, protocol_fee }
}

} // verus!
