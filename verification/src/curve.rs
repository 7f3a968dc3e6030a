//! One asset's bonding curve: reserve state, buy/sell application, and
//! graduation detection.
//!
//! Every trade quotes against the constant-product virtual reserves, pays
//! a fee split three ways, and moves the real reserves.  All decisions and
//! arithmetic happen here, atomically: a rejected or overflowing trade
//! leaves the curve, and any referral record, exactly as they were.  The
//! host only executes the transfers described by the returned receipt.
use vstd::prelude::*;
use crate::config::Global;
use crate::config::ProgramStatus;
use crate::constants::BPS_DENOMINATOR;
use crate::errors::AdminError;
use crate::errors::MathError;
use crate::errors::OpError;
use crate::errors::TradeError;
use crate::fees::creator_fee_of;
use crate::fees::protocol_fee_of;
use crate::fees::referral_fee_of;
use crate::fees::split_fee;
use crate::identity::Identity;
use crate::math::buy_quote;
use crate::math::calculate_buy_amount;
use crate::math::calculate_sell_amount;
use crate::math::fee_amount;
use crate::math::lemma_fee_le_amount;
use crate::math::lemma_quote_below_reserve;
use crate::math::lemma_round_trip_no_profit;
use crate::math::mul_div;
use crate::math::sell_quote;
use crate::referral::Referral;
use crate::referral::ReferralAccount;

verus! {

/// Reserve state of one asset's bonding curve.
#[derive(Clone, Copy, Debug, PartialEq, Eq, Structural)]
pub struct BondingCurve {
    /// The asset this curve trades; immutable after creation.
    pub mint: Identity,
    /// The asset's creator, who receives a share of every fee.
    pub creator: Identity,
    /// Virtual quote reserves used for pricing; always positive.
    pub virtual_sol: u64,
    /// Virtual base reserves used for pricing; always positive.
    pub virtual_token: u64,
    /// Actual quote collateral held; tracks net inflow from trades.
    pub real_sol_reserves: u64,
    /// Base units still escrowed and sellable through the curve.
    pub real_token: u64,
    /// Base units minted for the asset; fixed at creation.
    pub token_total_supply: u64,
    /// Creation timestamp supplied by the host clock.
    pub start_time: i64,
    /// True once real collateral crossed the graduation threshold; once
    /// set, ordinary trading is permanently disabled.
    pub completed: bool,
    /// True once the one-time migration handoff executed.
    pub migrated: bool,
}

/// What one executed trade moved: the amounts the host must transfer and
/// the fee disbursement, exactly as the contract computed them.
#[derive(Clone, Copy, Debug, PartialEq, Eq, Structural)]
pub struct TradeReceipt {
    pub is_buy: bool,
    /// Net quote units moved between the trader and curve custody.
    pub sol_amount: u64,
    /// Base tokens moved between curve escrow and the trader.
    pub token_amount: u64,
    /// Gross fee taken from the trade.
    pub fee: u64,
    /// Fee share owed to the asset's creator.
    pub creator_fee: u64,
    /// Fee share owed to the referrer, zero without a valid referral.
    pub referral_fee: u64,
    /// Fee share owed to the protocol vault.
    pub protocol_fee: u64,
    /// Whether this trade pushed the curve across its graduation
    /// threshold.
    pub completed_now: bool,
}

impl BondingCurve {
    /// Validity of a curve: pricing reserves are positive, and a curve
    /// migrates only after it completes.  Established at creation and
    /// preserved by every operation.
    pub open spec fn wf(self) -> bool {
        &&& self.virtual_sol > 0
        &&& self.virtual_token > 0
        &&& (!self.completed ==> !self.migrated)
    }
}

/// The lifecycle flags only ever advance: `completed` and `migrated` each
/// flip false to true at most once and never flip back.
pub open spec fn lifecycle_monotone(pre: BondingCurve, post: BondingCurve) -> bool {
    &&& pre.completed ==> post.completed
    &&& pre.migrated ==> post.migrated
}

/// The curve a new asset starts with: a snapshot of the configuration's
/// seed values, no collateral, and both lifecycle flags clear.
pub open spec fn fresh_curve(g: Global, creator: Identity, mint: Identity, start_time: i64) -> BondingCurve {
    BondingCurve {
        mint,
        creator,
        virtual_sol: g.initial_virtual_sol_reserves,
        virtual_token: g.initial_virtual_token_reserves,
        real_sol_reserves: 0,
        real_token: g.initial_real_token_reserves,
        token_total_supply: g.token_total_supply,
        start_time,
        completed: false,
        migrated: false,
    }
}

/// Whether a presented referral record fails its identity check.
pub open spec fn referral_mismatch(referral: Option<ReferralAccount>) -> bool {
    match referral {
        Some(acc) => acc.key != acc.expected_key,
        None => false,
    }
}

/// Whether crediting `referral_fee` would overflow the referral record's
/// counters.
pub open spec fn referral_credit_overflows(
    referral: Option<ReferralAccount>,
    referral_fee: int,
) -> bool {
    match referral {
        Some(acc) => acc.entry.total_earned + referral_fee > u64::MAX || acc.entry.trade_count + 1
            > u64::MAX,
        None => false,
    }
}

/// The referral record after one trade credited `referral_fee` to it.
pub open spec fn referral_credited(
    referral: Option<ReferralAccount>,
    referral_fee: int,
) -> Option<ReferralAccount> {
    match referral {
        Some(acc) => Some(
            ReferralAccount {
                key: acc.key,
                expected_key: acc.expected_key,
                entry: Referral {
                    referrer: acc.entry.referrer,
                    total_earned: (acc.entry.total_earned + referral_fee) as u64,
                    trade_count: (acc.entry.trade_count + 1) as u64,
                },
            },
        ),
        None => None,
    }
}

/// Gross fee taken from a buy of `sol_amount` quote units.
pub open spec fn buy_fee(g: Global, sol_amount: int) -> int {
    fee_amount(sol_amount, g.trade_fee_bps as int)
}

/// Net quote amount that reaches the curve on a buy.
pub open spec fn buy_net(g: Global, sol_amount: int) -> int {
    sol_amount - buy_fee(g, sol_amount)
}

/// Base tokens a buy of `sol_amount` returns: the net amount quoted on
/// the constant-product curve.
pub open spec fn buy_tokens_out(c: BondingCurve, g: Global, sol_amount: int) -> int {
    buy_quote(c.virtual_sol as int, c.virtual_token as int, buy_net(g, sol_amount))
}

/// Referral share of a buy's fee.
pub open spec fn buy_referral_fee(g: Global, sol_amount: int, has_referral: bool) -> int {
    referral_fee_of(
        buy_fee(g, sol_amount),
        g.creator_share_bps as int,
        g.referral_share_bps as int,
        has_referral,
    )
}

/// The error a buy reports, in the order the checks run, or `None` when
/// the buy goes through.
pub open spec fn buy_error(
    c: BondingCurve,
    g: Global,
    sol_amount: int,
    min_tokens_out: int,
    referral: Option<ReferralAccount>,
) -> Option<OpError> {
    if sol_amount <= 0 {
        Some(OpError::Trade(TradeError::ZeroAmount))
    } else if g.status == ProgramStatus::Paused {
        Some(OpError::Trade(TradeError::ProgramPaused))
    } else if c.completed {
        Some(OpError::Trade(TradeError::CurveCompleted))
    } else if buy_tokens_out(c, g, sol_amount) < min_tokens_out {
        Some(OpError::Trade(TradeError::SlippageExceeded))
    } else if buy_tokens_out(c, g, sol_amount) > c.real_token {
        Some(OpError::Trade(TradeError::NotEnoughTokens))
    } else if referral_mismatch(referral) {
        Some(OpError::Trade(TradeError::InvalidReferral))
    } else if referral_credit_overflows(referral, buy_referral_fee(g, sol_amount, referral is Some))
        || c.virtual_sol + buy_net(g, sol_amount) > u64::MAX || c.real_sol_reserves + buy_net(
        g,
        sol_amount,
    ) > u64::MAX {
        Some(OpError::Math(MathError::Overflow))
    } else {
        None
    }
}

/// The curve after an accepted buy: the net amount joins both quote
/// reserves, the bought tokens leave both base reserves, and the curve
/// completes exactly when real collateral reaches the graduation
/// threshold.
pub open spec fn buy_applied(c: BondingCurve, g: Global, sol_amount: int) -> BondingCurve {
    BondingCurve {
        mint: c.mint,
        creator: c.creator,
        virtual_sol: (c.virtual_sol + buy_net(g, sol_amount)) as u64,
        virtual_token: (c.virtual_token - buy_tokens_out(c, g, sol_amount)) as u64,
        real_sol_reserves: (c.real_sol_reserves + buy_net(g, sol_amount)) as u64,
        real_token: (c.real_token - buy_tokens_out(c, g, sol_amount)) as u64,
        token_total_supply: c.token_total_supply,
        start_time: c.start_time,
        completed: c.completed || c.real_sol_reserves + buy_net(g, sol_amount)
            >= g.graduation_threshold,
        migrated: c.migrated,
    }
}

/// Creates the curve for a new asset from the current configuration's
/// seed values.  Fails with `ProgramPaused` while the program is paused.
/// Minting the supply into escrow and writing the asset's descriptor are
/// host work.
pub fn create_token(global: &Global, creator: Identity, mint: Identity, start_time: i64) -> (r:
    Result<BondingCurve, AdminError>)
    requires
        global.wf(),
    ensures
        r is Err <==> global.status == ProgramStatus::Paused,
        r matches Err(e) ==> e == AdminError::ProgramPaused,
        r matches Ok(c) ==> c == fresh_curve(*global, creator, mint, start_time),
        r matches Ok(c) ==> c.wf(),
{
    if global.status == ProgramStatus::Paused {
        return Err(AdminError::ProgramPaused);
    }
    Ok(
        BondingCurve {
            mint,
            creator,
            virtual_sol: global.initial_virtual_sol_reserves,
            virtual_token: global.initial_virtual_token_reserves,
            real_sol_reserves: 0,
            real_token: global.initial_real_token_reserves,
            token_total_supply: global.token_total_supply,
            start_time,
            completed: false,
            migrated: false,
        },
    )
}

/// Buys base tokens with `sol_amount` quote units.
///
/// The fee comes off first; the net amount is quoted on the curve; the
/// trade is rejected on slippage, exhausted escrow, an invalid referral,
/// or any arithmetic overflow, in that order, with no state change.  On
/// success the reserves move, a valid referral is credited, and the
/// receipt lists every transfer the host must perform.
pub fn buy_token(
    curve: &mut BondingCurve,
    global: &Global,
    sol_amount: u64,
    min_tokens_out: u64,
    referral: &mut Option<ReferralAccount>,
) -> (r: Result<TradeReceipt, OpError>)
    requires
        old(curve).wf(),
        global.wf(),
    ensures
        r is Ok <==> buy_error(
            *old(curve),
            *global,
            sol_amount as int,
            min_tokens_out as int,
            *old(referral),
        ) is None,
        r matches Err(e) ==> buy_error(
            *old(curve),
            *global,
            sol_amount as int,
            min_tokens_out as int,
            *old(referral),
        ) == Some(e),
        r is Err ==> *final(curve) == *old(curve) && *final(referral) == *old(referral),
        r is Ok ==> *final(curve) == buy_applied(*old(curve), *global, sol_amount as int),
        r is Ok ==> *final(referral) == referral_credited(
            *old(referral),
            buy_referral_fee(*global, sol_amount as int, (*old(referral)) is Some),
        ),
        r matches Ok(t) ==> t == (TradeReceipt {
            is_buy: true,
            sol_amount: buy_net(*global, sol_amount as int) as u64,
            token_amount: buy_tokens_out(*old(curve), *global, sol_amount as int) as u64,
            fee: buy_fee(*global, sol_amount as int) as u64,
            creator_fee: creator_fee_of(
                buy_fee(*global, sol_amount as int),
                global.creator_share_bps as int,
            ) as u64,
            referral_fee: buy_referral_fee(
                *global,
                sol_amount as int,
                (*old(referral)) is Some,
            ) as u64,
            protocol_fee: protocol_fee_of(
                buy_fee(*global, sol_amount as int),
                global.creator_share_bps as int,
                global.referral_share_bps as int,
                (*old(referral)) is Some,
            ) as u64,
            completed_now: final(curve).completed,
        }),
        r matches Ok(t) ==> t.creator_fee + t.referral_fee + t.protocol_fee == t.fee,
        r matches Ok(t) ==> t.sol_amount + t.creator_fee + t.referral_fee + t.protocol_fee
            == sol_amount,
        r matches Ok(t) ==> t.token_amount >= min_tokens_out,
        final(curve).wf(),
        lifecycle_monotone(*old(curve), *final(curve)),
        final(curve).migrated == old(curve).migrated,
        r is Ok ==> (final(curve).completed <==> final(curve).real_sol_reserves
            >= global.graduation_threshold),
{
    if sol_amount == 0 {
        return Err(OpError::Trade(TradeError::ZeroAmount));
    }
    if global.status == ProgramStatus::Paused {
        return Err(OpError::Trade(TradeError::ProgramPaused));
    }
    if curve.completed {
        return Err(OpError::Trade(TradeError::CurveCompleted));
    }
    proof {
        lemma_fee_le_amount(sol_amount as int, global.trade_fee_bps as int);
    }
    let fee = match mul_div(sol_amount, global.trade_fee_bps as u64, BPS_DENOMINATOR) {
        Ok(v) => v,
        Err(_) => {
            return Err(OpError::Math(MathError::Overflow));
        },
    };
    let net = sol_amount - fee;
    let tokens_out = match calculate_buy_amount(curve.virtual_sol, curve.virtual_token, net) {
        Ok(v) => v,
        Err(_) => {
            return Err(OpError::Math(MathError::DivisionByZero));
        },
    };
    if tokens_out < min_tokens_out {
        return Err(OpError::Trade(TradeError::SlippageExceeded));
    }
    if tokens_out > curve.real_token {
        return Err(OpError::Trade(TradeError::NotEnoughTokens));
    }
    let has_referral = match referral {
        Some(_) => true,
        None => false,
    };
    match referral {
        Some(acc) => {
            if acc.key != acc.expected_key {
                return Err(OpError::Trade(TradeError::InvalidReferral));
            }
        },
        None => {},
    }
    let split = split_fee(fee, global.creator_share_bps, global.referral_share_bps, has_referral);
    let new_virtual_sol = match curve.virtual_sol.checked_add(net) {
        Some(v) => v,
        None => {
            return Err(OpError::Math(MathError::Overflow));
        },
    };
    let new_real_sol = match curve.real_sol_reserves.checked_add(net) {
        Some(v) => v,
        None => {
            return Err(OpError::Math(MathError::Overflow));
        },
    };
    proof {
        lemma_quote_below_reserve(curve.virtual_token as int, curve.virtual_sol as int, net as int);
    }
    let new_virtual_token = curve.virtual_token - tokens_out;
    let new_real_token = curve.real_token - tokens_out;
    match referral {
        Some(acc) => {
            let total_earned = match acc.entry.total_earned.checked_add(split.referral_fee) {
                Some(v) => v,
                None => {
                    return Err(OpError::Math(MathError::Overflow));
                },
            };
            let trade_count = match acc.entry.trade_count.checked_add(1) {
                Some(v) => v,
                None => {
                    return Err(OpError::Math(MathError::Overflow));
                },
            };
            acc.entry.total_earned = total_earned;
            acc.entry.trade_count = trade_count;
        },
        None => {},
    }
    curve.virtual_sol = new_virtual_sol;
    curve.virtual_token = new_virtual_token;
    curve.real_sol_reserves = new_real_sol;
    curve.real_token = new_real_token;
    let completed_now = new_real_sol >= global.graduation_threshold;
    if completed_now {
        curve.completed = true;
    }
    Ok(
        TradeReceipt {
            is_buy: true,
            sol_amount: net,
            token_amount: tokens_out,
            fee,
            creator_fee: split.creator_fee,
            referral_fee: split.referral_fee,
            protocol_fee: split.protocol_fee,
            completed_now,
        },
    )
}

/// Gross quote units a sell of `token_amount` is quoted at on the curve.
pub open spec fn sell_gross(c: BondingCurve, token_amount: int) -> int {
    sell_quote(c.virtual_sol as int, c.virtual_token as int, token_amount)
}

/// Gross fee taken from a sell's quoted amount.
pub open spec fn sell_fee(c: BondingCurve, g: Global, token_amount: int) -> int {
    fee_amount(sell_gross(c, token_amount), g.trade_fee_bps as int)
}

/// Net quote amount the seller receives.
pub open spec fn sell_net(c: BondingCurve, g: Global, token_amount: int) -> int {
    sell_gross(c, token_amount) - sell_fee(c, g, token_amount)
}

/// Referral share of a sell's fee.
pub open spec fn sell_referral_fee(
    c: BondingCurve,
    g: Global,
    token_amount: int,
    has_referral: bool,
) -> int {
    referral_fee_of(
        sell_fee(c, g, token_amount),
        g.creator_share_bps as int,
        g.referral_share_bps as int,
        has_referral,
    )
}

/// The error a sell reports, in the order the checks run, or `None` when
/// the sell goes through.  `curve_lamports` is the curve account's actual
/// balance and `rent_minimum` the floor it must retain: paying out below
/// that floor is rejected so the curve stays a valid, persistent account.
pub open spec fn sell_error(
    c: BondingCurve,
    g: Global,
    token_amount: int,
    min_sol_out: int,
    referral: Option<ReferralAccount>,
    curve_lamports: int,
    rent_minimum: int,
) -> Option<OpError> {
    if token_amount <= 0 {
        Some(OpError::Trade(TradeError::ZeroAmount))
    } else if g.status == ProgramStatus::Paused {
        Some(OpError::Trade(TradeError::ProgramPaused))
    } else if c.completed {
        Some(OpError::Trade(TradeError::CurveCompleted))
    } else if sell_net(c, g, token_amount) < min_sol_out {
        Some(OpError::Trade(TradeError::SlippageExceeded))
    } else if sell_gross(c, token_amount) > c.real_sol_reserves {
        Some(OpError::Trade(TradeError::NotEnoughSol))
    } else if sell_gross(c, token_amount) > curve_lamports {
        Some(OpError::Math(MathError::Overflow))
    } else if curve_lamports - sell_gross(c, token_amount) < rent_minimum {
        Some(OpError::Trade(TradeError::InsufficientRentExemption))
    } else if referral_mismatch(referral) {
        Some(OpError::Trade(TradeError::InvalidReferral))
    } else if referral_credit_overflows(
        referral,
        sell_referral_fee(c, g, token_amount, referral is Some),
    ) || c.virtual_token + token_amount > u64::MAX || c.real_token + token_amount > u64::MAX {
        Some(OpError::Math(MathError::Overflow))
    } else {
        None
    }
}

/// The curve after an accepted sell: the gross quote amount leaves both
/// quote reserves, the sold tokens join both base reserves, and the
/// graduation check runs exactly as on a buy.
pub open spec fn sell_applied(c: BondingCurve, g: Global, token_amount: int) -> BondingCurve {
    BondingCurve {
        mint: c.mint,
        creator: c.creator,
        virtual_sol: (c.virtual_sol - sell_gross(c, token_amount)) as u64,
        virtual_token: (c.virtual_token + token_amount) as u64,
        real_sol_reserves: (c.real_sol_reserves - sell_gross(c, token_amount)) as u64,
        real_token: (c.real_token + token_amount) as u64,
        token_total_supply: c.token_total_supply,
        start_time: c.start_time,
        completed: c.completed || c.real_sol_reserves - sell_gross(c, token_amount)
            >= g.graduation_threshold,
        migrated: c.migrated,
    }
}

/// Sells `token_amount` base tokens back to the curve.
///
/// The gross quote amount is quoted on the curve and the fee comes off
/// it; the sell is rejected on slippage, exhausted collateral, a payout
/// that would breach the curve account's reserved floor, an invalid
/// referral, or any arithmetic overflow, in that order, with no state
/// change.  On success the reserves move, a valid referral is credited,
/// and the receipt lists every transfer the host must perform.
pub fn sell_token(
    curve: &mut BondingCurve,
    global: &Global,
    token_amount: u64,
    min_sol_out: u64,
    referral: &mut Option<ReferralAccount>,
    curve_lamports: u64,
    rent_minimum: u64,
) -> (r: Result<TradeReceipt, OpError>)
    requires
        old(curve).wf(),
        global.wf(),
    ensures
        r is Ok <==> sell_error(
            *old(curve),
            *global,
            token_amount as int,
            min_sol_out as int,
            *old(referral),
            curve_lamports as int,
            rent_minimum as int,
        ) is None,
        r matches Err(e) ==> sell_error(
            *old(curve),
            *global,
            token_amount as int,
            min_sol_out as int,
            *old(referral),
            curve_lamports as int,
            rent_minimum as int,
        ) == Some(e),
        r is Err ==> *final(curve) == *old(curve) && *final(referral) == *old(referral),
        r is Ok ==> *final(curve) == sell_applied(*old(curve), *global, token_amount as int),
        r is Ok ==> *final(referral) == referral_credited(
            *old(referral),
            sell_referral_fee(
                *old(curve),
                *global,
                token_amount as int,
                (*old(referral)) is Some,
            ),
        ),
        r matches Ok(t) ==> t == (TradeReceipt {
            is_buy: false,
            sol_amount: sell_net(*old(curve), *global, token_amount as int) as u64,
            token_amount,
            fee: sell_fee(*old(curve), *global, token_amount as int) as u64,
            creator_fee: creator_fee_of(
                sell_fee(*old(curve), *global, token_amount as int),
                global.creator_share_bps as int,
            ) as u64,
            referral_fee: sell_referral_fee(
                *old(curve),
                *global,
                token_amount as int,
                (*old(referral)) is Some,
            ) as u64,
            protocol_fee: protocol_fee_of(
                sell_fee(*old(curve), *global, token_amount as int),
                global.creator_share_bps as int,
                global.referral_share_bps as int,
                (*old(referral)) is Some,
            ) as u64,
            completed_now: final(curve).completed,
        }),
        r matches Ok(t) ==> t.creator_fee + t.referral_fee + t.protocol_fee == t.fee,
        r matches Ok(t) ==> t.sol_amount + t.fee == sell_gross(*old(curve), token_amount as int),
        r matches Ok(t) ==> t.sol_amount + t.fee == old(curve).real_sol_reserves
            - final(curve).real_sol_reserves,
        r matches Ok(t) ==> t.sol_amount >= min_sol_out,
        final(curve).wf(),
        lifecycle_monotone(*old(curve), *final(curve)),
        final(curve).migrated == old(curve).migrated,
        r is Ok ==> (final(curve).completed <==> final(curve).real_sol_reserves
            >= global.graduation_threshold),
{
    if token_amount == 0 {
        return Err(OpError::Trade(TradeError::ZeroAmount));
    }
    if global.status == ProgramStatus::Paused {
        return Err(OpError::Trade(TradeError::ProgramPaused));
    }
    if curve.completed {
        return Err(OpError::Trade(TradeError::CurveCompleted));
    }
    let gross = match calculate_sell_amount(curve.virtual_sol, curve.virtual_token, token_amount) {
        Ok(v) => v,
        Err(_) => {
            return Err(OpError::Math(MathError::DivisionByZero));
        },
    };
    proof {
        lemma_fee_le_amount(gross as int, global.trade_fee_bps as int);
    }
    let fee = match mul_div(gross, global.trade_fee_bps as u64, BPS_DENOMINATOR) {
        Ok(v) => v,
        Err(_) => {
            return Err(OpError::Math(MathError::Overflow));
        },
    };
    let net = gross - fee;
    if net < min_sol_out {
        return Err(OpError::Trade(TradeError::SlippageExceeded));
    }
    if gross > curve.real_sol_reserves {
        return Err(OpError::Trade(TradeError::NotEnoughSol));
    }
    let remaining_lamports = match curve_lamports.checked_sub(gross) {
        Some(v) => v,
        None => {
            return Err(OpError::Math(MathError::Overflow));
        },
    };
    if remaining_lamports < rent_minimum {
        return Err(OpError::Trade(TradeError::InsufficientRentExemption));
    }
    let has_referral = match referral {
        Some(_) => true,
        None => false,
    };
    match referral {
        Some(acc) => {
            if acc.key != acc.expected_key {
                return Err(OpError::Trade(TradeError::InvalidReferral));
            }
        },
        None => {},
    }
    let split = split_fee(fee, global.creator_share_bps, global.referral_share_bps, has_referral);
    let new_virtual_token = match curve.virtual_token.checked_add(token_amount) {
        Some(v) => v,
        None => {
            return Err(OpError::Math(MathError::Overflow));
        },
    };
    let new_real_token = match curve.real_token.checked_add(token_amount) {
        Some(v) => v,
        None => {
            return Err(OpError::Math(MathError::Overflow));
        },
    };
    proof {
        lemma_quote_below_reserve(
            curve.virtual_sol as int,
            curve.virtual_token as int,
            token_amount as int,
        );
    }
    let new_virtual_sol = curve.virtual_sol - gross;
    let new_real_sol = curve.real_sol_reserves - gross;
    match referral {
        Some(acc) => {
            let total_earned = match acc.entry.total_earned.checked_add(split.referral_fee) {
                Some(v) => v,
                None => {
                    return Err(OpError::Math(MathError::Overflow));
                },
            };
            let trade_count = match acc.entry.trade_count.checked_add(1) {
                Some(v) => v,
                None => {
                    return Err(OpError::Math(MathError::Overflow));
                },
            };
            acc.entry.total_earned = total_earned;
            acc.entry.trade_count = trade_count;
        },
        None => {},
    }
    curve.virtual_sol = new_virtual_sol;
    curve.virtual_token = new_virtual_token;
    curve.real_sol_reserves = new_real_sol;
    curve.real_token = new_real_token;
    let completed_now = new_real_sol >= global.graduation_threshold;
    if completed_now {
        curve.completed = true;
    }
    Ok(
        TradeReceipt {
            is_buy: false,
            sol_amount: net,
            token_amount,
            fee,
            creator_fee: split.creator_fee,
            referral_fee: split.referral_fee,
            protocol_fee: split.protocol_fee,
            completed_now,
        },
    )
}

/// Round-trip bound over the trade operations: after any accepted buy,
/// immediately selling the bought tokens back is quoted at most the net
/// amount the buy paid into the curve — a round trip never profits, even
/// before fees — and once a nonzero fee is taken the seller ends strictly
/// below the buyer's gross outlay.
pub proof fn lemma_round_trip_bound(c: BondingCurve, g: Global, sol_amount: int)
    requires
        c.wf(),
        g.wf(),
        buy_error(c, g, sol_amount, 0, None) is None,
    ensures
        sell_gross(buy_applied(c, g, sol_amount), buy_tokens_out(c, g, sol_amount)) <= buy_net(
            g,
            sol_amount,
        ),
        sell_net(
            buy_applied(c, g, sol_amount),
            g,
            buy_tokens_out(c, g, sol_amount),
        ) <= sol_amount,
        buy_fee(g, sol_amount) > 0 ==> sell_net(
            buy_applied(c, g, sol_amount),
            g,
            buy_tokens_out(c, g, sol_amount),
        ) < sol_amount,
{
    let net = buy_net(g, sol_amount);
    let out = buy_tokens_out(c, g, sol_amount);
    let c2 = buy_applied(c, g, sol_amount);
    lemma_fee_le_amount(sol_amount, g.trade_fee_bps as int);
    lemma_quote_below_reserve(c.virtual_token as int, c.virtual_sol as int, net);
    // The accepted buy fits in 64 bits, so the updated reserves are exact.
    assert(c2.virtual_sol == c.virtual_sol + net);
    assert(c2.virtual_token == c.virtual_token - out);
    lemma_round_trip_no_profit(c.virtual_sol as int, c.virtual_token as int, net);
    assert(sell_gross(c2, out) <= net);
    lemma_quote_below_reserve(c2.virtual_sol as int, c2.virtual_token as int, out);
    lemma_fee_le_amount(sell_gross(c2, out), g.trade_fee_bps as int);
}

/// The error an atomic create-and-buy reports: creation is rejected while
/// the program is paused; the composed buy then runs against the freshly
/// seeded curve with no referral.
pub open spec fn create_and_buy_error(
    g: Global,
    creator: Identity,
    mint: Identity,
    start_time: i64,
    sol_amount: int,
    min_tokens_out: int,
) -> Option<OpError> {
    if g.status == ProgramStatus::Paused {
        Some(OpError::Admin(AdminError::ProgramPaused))
    } else {
        buy_error(
            fresh_curve(g, creator, mint, start_time),
            g,
            sol_amount,
            min_tokens_out,
            None,
        )
    }
}

/// Atomically creates a new asset's curve and executes a first buy
/// against it, as one indivisible operation: any rejection leaves no
/// curve behind.
pub fn create_and_buy_token(
    global: &Global,
    creator: Identity,
    mint: Identity,
    start_time: i64,
    sol_amount: u64,
    min_tokens_out: u64,
) -> (r: Result<(BondingCurve, TradeReceipt), OpError>)
    requires
        global.wf(),
    ensures
        r is Ok <==> create_and_buy_error(
            *global,
            creator,
            mint,
            start_time,
            sol_amount as int,
            min_tokens_out as int,
        ) is None,
        r matches Err(e) ==> create_and_buy_error(
            *global,
            creator,
            mint,
            start_time,
            sol_amount as int,
            min_tokens_out as int,
        ) == Some(e),
        r matches Ok(p) ==> p.0 == buy_applied(
            fresh_curve(*global, creator, mint, start_time),
            *global,
            sol_amount as int,
        ),
        r matches Ok(p) ==> p.0.wf() && !p.0.migrated,
        r matches Ok(p) ==> p.1 == (TradeReceipt {
            is_buy: true,
            sol_amount: buy_net(*global, sol_amount as int) as u64,
            token_amount: buy_tokens_out(
                fresh_curve(*global, creator, mint, start_time),
                *global,
                sol_amount as int,
            ) as u64,
            fee: buy_fee(*global, sol_amount as int) as u64,
            creator_fee: creator_fee_of(
                buy_fee(*global, sol_amount as int),
                global.creator_share_bps as int,
            ) as u64,
            referral_fee: 0u64,
            protocol_fee: protocol_fee_of(
                buy_fee(*global, sol_amount as int),
                global.creator_share_bps as int,
                global.referral_share_bps as int,
                false,
            ) as u64,
            completed_now: p.0.completed,
        }),
        r matches Ok(p) ==> p.1.creator_fee + p.1.referral_fee + p.1.protocol_fee == p.1.fee,
        r matches Ok(p) ==> p.1.token_amount >= min_tokens_out,
{
    let mut curve = match create_token(global, creator, mint, start_time) {
        Ok(c) => c,
        Err(e) => {
            return Err(OpError::Admin(e));
        },
    };
    let mut no_referral: Option<ReferralAccount> = None;
    let receipt = match buy_token(&mut curve, global, sol_amount, min_tokens_out, &mut no_referral) {
        Ok(t) => t,
        Err(e) => {
            return Err(e);
        },
    };
    Ok((curve, receipt))
}

} // verus!
