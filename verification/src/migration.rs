//! The graduation handoff.
//!
//! A curve's lifecycle is `Trading -> Completed -> Migrated`.  Trading
//! flips `completed` when real collateral reaches the graduation
//! threshold; the separate migration operation then runs exactly once,
//! deducting a flat fee and handing the remaining collateral and the full
//! base escrow to the external market maker.  `Migrated` is terminal: no
//! transition ever leaves it.
use vstd::prelude::*;
use crate::constants::MIGRATION_FEE;
use crate::curve::BondingCurve;
use crate::curve::lifecycle_monotone;

verus! {

/// The lifecycle phase a curve is in.
#[derive(Clone, Copy, Debug, PartialEq, Eq, Structural)]
pub enum CurvePhase {
    /// Ordinary trading against the bonding curve.
    Trading,
    /// Graduated: trading is disabled, migration has not yet run.
    Completed,
    /// Liquidity handed off; terminal.
    Migrated,
}

impl BondingCurve {
    /// The phase encoded by the two lifecycle flags.
    pub open spec fn phase(self) -> CurvePhase {
        if self.migrated {
            CurvePhase::Migrated
        } else if self.completed {
            CurvePhase::Completed
        } else {
            CurvePhase::Trading
        }
    }
}

/// Position of a phase in the lifecycle order
/// `Trading -> Completed -> Migrated`.
pub open spec fn phase_rank(p: CurvePhase) -> int {
    match p {
        CurvePhase::Trading => 0,
        CurvePhase::Completed => 1,
        CurvePhase::Migrated => 2,
    }
}

/// The lifecycle only moves forward: any step whose flags advance
/// monotonically, between well-formed curves, never lowers the phase.
/// Every operation of this library guarantees `lifecycle_monotone`, so no
/// sequence of them ever leaves `Completed` for `Trading`, or `Migrated`
/// for anything.
pub proof fn lemma_phase_advances(pre: BondingCurve, post: BondingCurve)
    requires
        pre.wf(),
        post.wf(),
        lifecycle_monotone(pre, post),
    ensures
        phase_rank(pre.phase()) <= phase_rank(post.phase()),
{
}

/// What the host must execute to migrate a curve: move the flat fee to
/// the protocol vault, deposit the remaining quote collateral together
/// with the curve's full base custody into the external market maker as a
/// new liquidity position, and burn the returned receipt in full — the
/// protocol renounces any claim to the migrated liquidity.
#[derive(Clone, Copy, Debug, PartialEq, Eq, Structural)]
pub struct MigrationPlan {
    /// Flat fee moved from curve custody to the protocol vault.
    pub migration_fee: u64,
    /// Quote collateral deposited into the external pool.
    pub quote_deposit: u64,
    /// Base units deposited into the external pool: the curve's full
    /// custody balance, as the host reads it.
    pub base_deposit: u64,
}

/// Executes the one-time migration handoff.
///
/// Allowed only on a curve that has completed and not yet migrated, with
/// enough collateral to cover the flat fee; the host checks these before
/// the call, performs the returned plan, and rolls the flag back together
/// with a failed deposit so both succeed or neither does.
pub fn migrate_to_raydium(curve: &mut BondingCurve, base_custody: u64) -> (r: MigrationPlan)
    requires
        old(curve).wf(),
        old(curve).completed,
        !old(curve).migrated,
        old(curve).real_sol_reserves >= MIGRATION_FEE,
    ensures
        *final(curve) == (BondingCurve { migrated: true, ..*old(curve) }),
        final(curve).wf(),
        final(curve).phase() == CurvePhase::Migrated,
        lifecycle_monotone(*old(curve), *final(curve)),
        r.migration_fee == MIGRATION_FEE,
        r.quote_deposit == old(curve).real_sol_reserves - MIGRATION_FEE,
        r.base_deposit == base_custody,
{
    let plan = MigrationPlan {
        migration_fee: MIGRATION_FEE,
        quote_deposit: curve.real_sol_reserves - MIGRATION_FEE,
        base_deposit: base_custody,
    };
    curve.migrated = true;
    plan
}

} // verus!
