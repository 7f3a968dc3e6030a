//! Referral bookkeeping.
//!
//! One entry exists per registered referrer.  Referral fees stream to the
//! referrer on every trade that names them: the entry's cumulative
//! earnings and trade count grow monotonically and never decrease.
use vstd::prelude::*;
use crate::errors::AdminError;
use crate::errors::MathError;
use crate::identity::Identity;

verus! {

/// Cumulative earnings record of one referrer.
#[derive(Clone, Copy, Debug, PartialEq, Eq, Structural)]
pub struct Referral {
    pub referrer: Identity,
    /// Total referral fees ever credited; never decreases.
    pub total_earned: u64,
    /// Number of trades that credited this referrer; never decreases.
    pub trade_count: u64,
}

/// A referral record as presented with a trade: the record itself, the
/// identity it is stored under, and the canonical identity derived for the
/// claimed referrer.  The host derives `expected_key`; a trade trusts the
/// record only after checking that the two identities match.
#[derive(Clone, Copy, Debug, PartialEq, Eq, Structural)]
pub struct ReferralAccount {
    pub key: Identity,
    pub expected_key: Identity,
    pub entry: Referral,
}

/// Creates a fresh entry for `referrer` with zeroed counters.
/// Registration is idempotent: the host creates the entry only if none
/// exists yet.
pub fn register_referral(referrer: Identity) -> (r: Referral)
    ensures
        r == (Referral { referrer, total_earned: 0, trade_count: 0 }),
{
    Referral { referrer, total_earned: 0, trade_count: 0 }
}

impl Referral {
    /// Credits one trade's referral fee: cumulative earnings grow by
    /// `amount` and the trade count by one, or the record is left
    /// untouched when either counter would overflow.
    pub fn credit(&mut self, amount: u64) -> (r: Result<(), MathError>)
        ensures
            r is Ok <==> old(self).total_earned + amount <= u64::MAX && old(self).trade_count + 1
                <= u64::MAX,
            r is Ok ==> *final(self) == (Referral {
                referrer: old(self).referrer,
                total_earned: (old(self).total_earned + amount) as u64,
                trade_count: (old(self).trade_count + 1) as u64,
            }),
            r matches Err(e) ==> e == MathError::Overflow && *final(self) == *old(self),
            final(self).total_earned >= old(self).total_earned,
            final(self).trade_count >= old(self).trade_count,
    {
        let total_earned = match self.total_earned.checked_add(amount) {
            Some(v) => v,
            None => {
                return Err(MathError::Overflow);
            },
        };
        let trade_count = match self.trade_count.checked_add(1) {
            Some(v) => v,
            None => {
                return Err(MathError::Overflow);
            },
        };
        self.total_earned = total_earned;
        self.trade_count = trade_count;
        Ok(())
    }
}

/// Amount a referrer can withdraw from their referral account: everything
/// above the reserved minimum the account must retain.  Fails with
/// `NotEnoughLamports` when the balance is at or below that floor; the
/// host then moves the returned amount to the referrer.
pub fn claim_referral_fees(referral_lamports: u64, rent_minimum: u64) -> (r: Result<
    u64,
    AdminError,
>)
    ensures
        r matches Ok(v) ==> referral_lamports > rent_minimum && v == referral_lamports
            - rent_minimum,
        r is Err <==> referral_lamports <= rent_minimum,
        r matches Err(e) ==> e == AdminError::NotEnoughLamports,
{
    if referral_lamports <= rent_minimum {
        return Err(AdminError::NotEnoughLamports);
    }
    Ok(referral_lamports - rent_minimum)
}

} // verus!
