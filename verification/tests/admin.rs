use token_lp::config::Global;
use token_lp::config::ProgramStatus;
use token_lp::config::initialize;
use token_lp::config::update_config;
use token_lp::config::withdraw_fees;
use token_lp::constants::DEPLOYER_ID_HI;
use token_lp::constants::DEPLOYER_ID_LO;
use token_lp::constants::MIGRATION_FEE;
use token_lp::curve::buy_token;
use token_lp::curve::create_token;
use token_lp::errors::AdminError;
use token_lp::identity::Identity;
use token_lp::migration::migrate_to_raydium;
use token_lp::referral::ReferralAccount;
use token_lp::referral::claim_referral_fees;
use token_lp::referral::register_referral;

fn deployer() -> Identity {
    Identity { hi: DEPLOYER_ID_HI, lo: DEPLOYER_ID_LO }
}

fn default_global() -> Global {
    initialize(deployer())
}

#[test]
fn initialize_sets_defaults() {
    let g = default_global();
    assert_eq!(g.authority, deployer());
    assert_eq!(g.fee_receiver, deployer());
    assert_eq!(g.initial_virtual_sol_reserves, 30_000_000_000);
    assert_eq!(g.initial_virtual_token_reserves, 1_073_000_000_000_000);
    assert_eq!(g.initial_real_token_reserves, 793_100_000_000_000);
    assert_eq!(g.token_total_supply, 1_000_000_000_000_000);
    assert_eq!(g.token_decimal, 6);
    assert_eq!(g.trade_fee_bps, 100);
    assert_eq!(g.creator_share_bps, 6_500);
    assert_eq!(g.referral_share_bps, 1_000);
    assert_eq!(g.graduation_threshold, 85_000_000_000);
    assert_eq!(g.status, ProgramStatus::Running);
}

#[test]
fn update_config_applies_supplied_fields() {
    let mut g = default_global();
    let new_receiver = Identity { hi: 77, lo: 88 };
    let r = update_config(
        &mut g,
        deployer(),
        Some(new_receiver),
        Some(40_000_000_000),
        None,
        None,
        None,
        Some(5_000),
        Some(9_000),
        None,
        Some(90_000_000_000),
        None,
    );
    assert_eq!(r, Ok(()));
    assert_eq!(g.fee_receiver, new_receiver);
    assert_eq!(g.initial_virtual_sol_reserves, 40_000_000_000);
    assert_eq!(g.initial_virtual_token_reserves, 1_073_000_000_000_000);
    assert_eq!(g.trade_fee_bps, 5_000);
    assert_eq!(g.creator_share_bps, 9_000);
    assert_eq!(g.referral_share_bps, 1_000);
    assert_eq!(g.graduation_threshold, 90_000_000_000);
    assert_eq!(g.authority, deployer());
}

#[test]
fn update_config_rejects_excess_shares() {
    let mut g = default_global();
    let before = g;
    let r = update_config(
        &mut g,
        deployer(),
        None,
        None,
        None,
        None,
        None,
        None,
        Some(7_000),
        Some(4_000),
        None,
        None,
    );
    assert_eq!(r, Err(AdminError::InvalidConfigParam));
    assert_eq!(g, before);
    assert_eq!(g.creator_share_bps, 6_500);
    assert_eq!(g.referral_share_bps, 1_000);
}

#[test]
fn update_config_checks_referral_against_current_creator_share() {
    let mut g = default_global();
    let before = g;
    // 6_500 current creator share + 4_000 proposed referral share > 10_000
    let r = update_config(
        &mut g,
        deployer(),
        None,
        None,
        None,
        None,
        None,
        None,
        None,
        Some(4_000),
        None,
        None,
    );
    assert_eq!(r, Err(AdminError::InvalidConfigParam));
    assert_eq!(g, before);
    // 3_500 fits exactly
    let r = update_config(
        &mut g,
        deployer(),
        None,
        None,
        None,
        None,
        None,
        None,
        None,
        Some(3_500),
        None,
        None,
    );
    assert_eq!(r, Ok(()));
    assert_eq!(g.referral_share_bps, 3_500);
}

#[test]
fn update_config_rejects_zero_seeds_and_high_fee() {
    let mut g = default_global();
    let before = g;
    let r = update_config(
        &mut g,
        deployer(),
        None,
        Some(0),
        None,
        None,
        None,
        None,
        None,
        None,
        None,
        None,
    );
    assert_eq!(r, Err(AdminError::InvalidConfigParam));
    assert_eq!(g, before);
    let r = update_config(
        &mut g,
        deployer(),
        None,
        None,
        None,
        None,
        None,
        Some(5_001),
        None,
        None,
        None,
        None,
    );
    assert_eq!(r, Err(AdminError::InvalidConfigParam));
    assert_eq!(g, before);
    let r = update_config(
        &mut g,
        deployer(),
        None,
        None,
        None,
        None,
        None,
        None,
        None,
        None,
        Some(0),
        None,
    );
    assert_eq!(r, Err(AdminError::InvalidConfigParam));
    assert_eq!(g, before);
}

#[test]
fn admin_operations_remain_allowed_while_paused() {
    let mut g = default_global();
    let r = update_config(
        &mut g,
        deployer(),
        None,
        None,
        None,
        None,
        None,
        None,
        None,
        None,
        None,
        Some(ProgramStatus::Paused),
    );
    assert_eq!(r, Ok(()));
    assert_eq!(g.status, ProgramStatus::Paused);
    // the configuration stays updatable and fees stay withdrawable
    let r = update_config(
        &mut g,
        deployer(),
        None,
        None,
        None,
        None,
        None,
        Some(200),
        None,
        None,
        None,
        Some(ProgramStatus::Running),
    );
    assert_eq!(r, Ok(()));
    assert_eq!(g.trade_fee_bps, 200);
    assert_eq!(g.status, ProgramStatus::Running);
}

#[test]
fn withdraw_fees_respects_reserved_floor() {
    let g = default_global();
    let r = withdraw_fees(&g, deployer(), deployer(), 150, 100);
    assert_eq!(r, Ok(50));
    let r = withdraw_fees(&g, deployer(), deployer(), 100, 100);
    assert_eq!(r, Err(AdminError::NotEnoughLamports));
    let r = withdraw_fees(&g, deployer(), deployer(), 99, 100);
    assert_eq!(r, Err(AdminError::NotEnoughLamports));
}

#[test]
fn register_referral_zeroes_counters() {
    let referrer = Identity { hi: 5, lo: 6 };
    let entry = register_referral(referrer);
    assert_eq!(entry.referrer, referrer);
    assert_eq!(entry.total_earned, 0);
    assert_eq!(entry.trade_count, 0);
}

#[test]
fn claim_referral_fees_respects_reserved_floor() {
    assert_eq!(claim_referral_fees(2_000_000, 890_880), Ok(1_109_120));
    assert_eq!(claim_referral_fees(890_880, 890_880), Err(AdminError::NotEnoughLamports));
}

#[test]
fn migration_is_terminal_and_exact() {
    let mut g = default_global();
    // a tiny threshold so one buy graduates the curve
    update_config(
        &mut g,
        deployer(),
        None,
        None,
        None,
        None,
        None,
        None,
        None,
        None,
        Some(900_000_000),
        None,
    )
    .unwrap();
    let creator = Identity { hi: 1, lo: 2 };
    let mint = Identity { hi: 3, lo: 4 };
    let mut curve = create_token(&g, creator, mint, 7).unwrap();
    let mut no_referral: Option<ReferralAccount> = None;
    let receipt = buy_token(&mut curve, &g, 1_000_000_000, 0, &mut no_referral).unwrap();
    assert!(receipt.completed_now);
    assert!(curve.completed);
    assert!(!curve.migrated);
    let plan = migrate_to_raydium(&mut curve, 758_822_168_441_433);
    assert_eq!(plan.migration_fee, MIGRATION_FEE);
    assert_eq!(plan.migration_fee, 500_000_000);
    assert_eq!(plan.quote_deposit, 990_000_000 - 500_000_000);
    assert_eq!(plan.base_deposit, 758_822_168_441_433);
    assert!(curve.migrated);
    assert!(curve.completed);
    assert_eq!(curve.real_sol_reserves, 990_000_000);
}
