use token_lp::config::Global;
use token_lp::config::ProgramStatus;
use token_lp::config::initialize;
use token_lp::config::update_config;
use token_lp::constants::DEPLOYER_ID_HI;
use token_lp::constants::DEPLOYER_ID_LO;
use token_lp::curve::BondingCurve;
use token_lp::curve::buy_token;
use token_lp::curve::create_and_buy_token;
use token_lp::curve::create_token;
use token_lp::curve::sell_token;
use token_lp::errors::MathError;
use token_lp::errors::OpError;
use token_lp::errors::TradeError;
use token_lp::identity::Identity;
use token_lp::referral::Referral;
use token_lp::referral::ReferralAccount;

fn deployer() -> Identity {
    Identity { hi: DEPLOYER_ID_HI, lo: DEPLOYER_ID_LO }
}

fn default_global() -> Global {
    initialize(deployer())
}

fn new_curve(global: &Global) -> BondingCurve {
    let creator = Identity { hi: 1, lo: 2 };
    let mint = Identity { hi: 3, lo: 4 };
    create_token(global, creator, mint, 7).expect("creation runs while the program is running")
}

#[test]
fn buy_scenario_exact_amounts() {
    let global = default_global();
    let mut curve = new_curve(&global);
    assert_eq!(curve.virtual_sol, 30_000_000_000);
    assert_eq!(curve.virtual_token, 1_073_000_000_000_000);
    assert_eq!(curve.real_token, 793_100_000_000_000);
    let mut no_referral: Option<ReferralAccount> = None;
    let receipt = buy_token(&mut curve, &global, 1_000_000_000, 0, &mut no_referral)
        .expect("this buy is accepted");
    assert_eq!(receipt.fee, 10_000_000);
    assert_eq!(receipt.sol_amount, 990_000_000);
    // floor(1_073_000_000_000_000 * 990_000_000 / 30_990_000_000)
    assert_eq!(receipt.token_amount, 34_277_831_558_567);
    assert!(receipt.is_buy);
    assert!(!receipt.completed_now);
    assert_eq!(curve.virtual_sol, 30_990_000_000);
    assert_eq!(curve.virtual_token, 1_038_722_168_441_433);
    assert_eq!(curve.real_sol_reserves, 990_000_000);
    assert_eq!(curve.real_token, 758_822_168_441_433);
    assert!(!curve.completed);
}

#[test]
fn buy_fee_split_without_referral() {
    let global = default_global();
    let mut curve = new_curve(&global);
    let mut no_referral: Option<ReferralAccount> = None;
    let receipt = buy_token(&mut curve, &global, 1_000_000_000, 0, &mut no_referral).unwrap();
    assert_eq!(receipt.creator_fee, 6_500_000);
    assert_eq!(receipt.referral_fee, 0);
    assert_eq!(receipt.protocol_fee, 3_500_000);
    assert_eq!(receipt.creator_fee + receipt.referral_fee + receipt.protocol_fee, receipt.fee);
}

#[test]
fn buy_credits_valid_referral() {
    let global = default_global();
    let mut curve = new_curve(&global);
    let key = Identity { hi: 10, lo: 11 };
    let mut referral = Some(ReferralAccount {
        key,
        expected_key: key,
        entry: Referral { referrer: Identity { hi: 12, lo: 13 }, total_earned: 0, trade_count: 0 },
    });
    let receipt = buy_token(&mut curve, &global, 1_000_000_000, 0, &mut referral).unwrap();
    assert_eq!(receipt.creator_fee, 6_500_000);
    assert_eq!(receipt.referral_fee, 350_000);
    assert_eq!(receipt.protocol_fee, 3_150_000);
    assert_eq!(receipt.creator_fee + receipt.referral_fee + receipt.protocol_fee, receipt.fee);
    let entry = referral.unwrap().entry;
    assert_eq!(entry.total_earned, 350_000);
    assert_eq!(entry.trade_count, 1);
}

#[test]
fn buy_rejects_mismatched_referral() {
    let global = default_global();
    let mut curve = new_curve(&global);
    let before = curve;
    let mut referral = Some(ReferralAccount {
        key: Identity { hi: 10, lo: 11 },
        expected_key: Identity { hi: 10, lo: 12 },
        entry: Referral { referrer: Identity { hi: 12, lo: 13 }, total_earned: 5, trade_count: 2 },
    });
    let saved = referral;
    let r = buy_token(&mut curve, &global, 1_000_000_000, 0, &mut referral);
    assert_eq!(r, Err(OpError::Trade(TradeError::InvalidReferral)));
    assert_eq!(curve, before);
    assert_eq!(referral, saved);
}

#[test]
fn buy_zero_amount_rejected() {
    let global = default_global();
    let mut curve = new_curve(&global);
    let before = curve;
    let mut no_referral: Option<ReferralAccount> = None;
    let r = buy_token(&mut curve, &global, 0, 0, &mut no_referral);
    assert_eq!(r, Err(OpError::Trade(TradeError::ZeroAmount)));
    assert_eq!(curve, before);
}

#[test]
fn trades_rejected_while_paused() {
    let mut global = default_global();
    update_config(
        &mut global,
        deployer(),
        None,
        None,
        None,
        None,
        None,
        None,
        None,
        None,
        None,
        Some(ProgramStatus::Paused),
    )
    .unwrap();
    let mut curve = BondingCurve {
        mint: Identity { hi: 3, lo: 4 },
        creator: Identity { hi: 1, lo: 2 },
        virtual_sol: 30_000_000_000,
        virtual_token: 1_073_000_000_000_000,
        real_sol_reserves: 0,
        real_token: 793_100_000_000_000,
        token_total_supply: 1_000_000_000_000_000,
        start_time: 7,
        completed: false,
        migrated: false,
    };
    let mut no_referral: Option<ReferralAccount> = None;
    let r = buy_token(&mut curve, &global, 123_456_789, 0, &mut no_referral);
    assert_eq!(r, Err(OpError::Trade(TradeError::ProgramPaused)));
    let r = sell_token(&mut curve, &global, 42, 0, &mut no_referral, 1_000_000_000, 0);
    assert_eq!(r, Err(OpError::Trade(TradeError::ProgramPaused)));
    // a zero amount is reported before the pause
    let r = buy_token(&mut curve, &global, 0, 0, &mut no_referral);
    assert_eq!(r, Err(OpError::Trade(TradeError::ZeroAmount)));
    assert!(!curve.completed);
}

#[test]
fn buy_slippage_rejected() {
    let global = default_global();
    let mut curve = new_curve(&global);
    let before = curve;
    let mut no_referral: Option<ReferralAccount> = None;
    let r = buy_token(&mut curve, &global, 1_000_000_000, 34_277_831_558_568, &mut no_referral);
    assert_eq!(r, Err(OpError::Trade(TradeError::SlippageExceeded)));
    assert_eq!(curve, before);
}

#[test]
fn buy_exhausted_escrow_rejected() {
    let mut global = default_global();
    // a curve seeded with almost no sellable escrow
    update_config(
        &mut global,
        deployer(),
        None,
        None,
        None,
        Some(1),
        None,
        None,
        None,
        None,
        None,
        None,
    )
    .unwrap();
    let mut curve = new_curve(&global);
    assert_eq!(curve.real_token, 1);
    let before = curve;
    let mut no_referral: Option<ReferralAccount> = None;
    let r = buy_token(&mut curve, &global, 1_000_000_000, 0, &mut no_referral);
    assert_eq!(r, Err(OpError::Trade(TradeError::NotEnoughTokens)));
    assert_eq!(curve, before);
}

#[test]
fn sell_more_than_reserves_allows_rejected() {
    let global = default_global();
    let mut curve = new_curve(&global);
    let mut no_referral: Option<ReferralAccount> = None;
    buy_token(&mut curve, &global, 1_000_000_000, 0, &mut no_referral).unwrap();
    let before = curve;
    // quoting 40e12 tokens asks for more quote than the curve ever took in
    let r = sell_token(
        &mut curve,
        &global,
        40_000_000_000_000,
        0,
        &mut no_referral,
        10_000_000_000,
        0,
    );
    assert_eq!(r, Err(OpError::Trade(TradeError::NotEnoughSol)));
    assert_eq!(curve, before);
}

#[test]
fn sell_round_trip_never_profits() {
    let global = default_global();
    let mut curve = new_curve(&global);
    let mut no_referral: Option<ReferralAccount> = None;
    let bought = buy_token(&mut curve, &global, 1_000_000_000, 0, &mut no_referral).unwrap();
    let sold = sell_token(
        &mut curve,
        &global,
        bought.token_amount,
        0,
        &mut no_referral,
        2_000_000_000,
        0,
    )
    .unwrap();
    // gross quoted back is at most the net paid in, and fees bite on top
    assert_eq!(sold.sol_amount + sold.fee, 989_999_999);
    assert!(sold.sol_amount + sold.fee <= bought.sol_amount);
    assert_eq!(sold.sol_amount, 980_100_000);
    assert!(sold.sol_amount < 1_000_000_000);
    assert_eq!(curve.real_sol_reserves, 1);
    assert_eq!(curve.virtual_token, 1_073_000_000_000_000);
}

#[test]
fn sell_exact_amounts_and_split() {
    let global = default_global();
    let mut curve = new_curve(&global);
    let mut no_referral: Option<ReferralAccount> = None;
    buy_token(&mut curve, &global, 1_000_000_000, 0, &mut no_referral).unwrap();
    let receipt = sell_token(
        &mut curve,
        &global,
        1_000_000_000_000,
        0,
        &mut no_referral,
        2_000_000_000,
        0,
    )
    .unwrap();
    assert!(!receipt.is_buy);
    assert_eq!(receipt.fee, 298_060);
    assert_eq!(receipt.sol_amount, 29_507_979);
    assert_eq!(receipt.token_amount, 1_000_000_000_000);
    assert_eq!(receipt.creator_fee + receipt.referral_fee + receipt.protocol_fee, receipt.fee);
}

#[test]
fn sell_credits_valid_referral() {
    let global = default_global();
    let mut curve = new_curve(&global);
    let mut no_referral: Option<ReferralAccount> = None;
    buy_token(&mut curve, &global, 1_000_000_000, 0, &mut no_referral).unwrap();
    let key = Identity { hi: 20, lo: 21 };
    let mut referral = Some(ReferralAccount {
        key,
        expected_key: key,
        entry: Referral {
            referrer: Identity { hi: 22, lo: 23 },
            total_earned: 1_000,
            trade_count: 3,
        },
    });
    let receipt = sell_token(
        &mut curve,
        &global,
        1_000_000_000_000,
        0,
        &mut referral,
        2_000_000_000,
        0,
    )
    .unwrap();
    assert_eq!(receipt.fee, 298_060);
    assert_eq!(receipt.creator_fee, 193_739);
    assert_eq!(receipt.referral_fee, 10_432);
    assert_eq!(receipt.protocol_fee, 93_889);
    let entry = referral.unwrap().entry;
    assert_eq!(entry.total_earned, 11_432);
    assert_eq!(entry.trade_count, 4);
}

#[test]
fn referral_counter_overflow_aborts_whole_trade() {
    let global = default_global();
    let mut curve = new_curve(&global);
    let before = curve;
    let key = Identity { hi: 30, lo: 31 };
    let mut referral = Some(ReferralAccount {
        key,
        expected_key: key,
        entry: Referral {
            referrer: Identity { hi: 32, lo: 33 },
            total_earned: u64::MAX,
            trade_count: 0,
        },
    });
    let saved = referral;
    let r = buy_token(&mut curve, &global, 1_000_000_000, 0, &mut referral);
    assert_eq!(r, Err(OpError::Math(MathError::Overflow)));
    assert_eq!(curve, before);
    assert_eq!(referral, saved);
}

#[test]
fn sell_zero_amount_rejected() {
    let global = default_global();
    let mut curve = new_curve(&global);
    let mut no_referral: Option<ReferralAccount> = None;
    let r = sell_token(&mut curve, &global, 0, 0, &mut no_referral, 1_000_000_000, 0);
    assert_eq!(r, Err(OpError::Trade(TradeError::ZeroAmount)));
}

#[test]
fn sell_slippage_rejected() {
    let global = default_global();
    let mut curve = new_curve(&global);
    let mut no_referral: Option<ReferralAccount> = None;
    buy_token(&mut curve, &global, 1_000_000_000, 0, &mut no_referral).unwrap();
    let before = curve;
    let r = sell_token(
        &mut curve,
        &global,
        1_000_000_000_000,
        29_507_980,
        &mut no_referral,
        2_000_000_000,
        0,
    );
    assert_eq!(r, Err(OpError::Trade(TradeError::SlippageExceeded)));
    assert_eq!(curve, before);
}

#[test]
fn sell_respects_reserved_floor() {
    let global = default_global();
    let mut curve = new_curve(&global);
    let mut no_referral: Option<ReferralAccount> = None;
    buy_token(&mut curve, &global, 1_000_000_000, 0, &mut no_referral).unwrap();
    let before = curve;
    // paying out 29_806_039 gross would leave only 100 of the account's
    // balance, below the floor of 1_000
    let r = sell_token(
        &mut curve,
        &global,
        1_000_000_000_000,
        0,
        &mut no_referral,
        29_806_139,
        1_000,
    );
    assert_eq!(r, Err(OpError::Trade(TradeError::InsufficientRentExemption)));
    assert_eq!(curve, before);
    // a balance below the gross payout itself aborts as an overflow
    let r = sell_token(
        &mut curve,
        &global,
        1_000_000_000_000,
        0,
        &mut no_referral,
        29_806_038,
        0,
    );
    assert_eq!(r, Err(OpError::Math(MathError::Overflow)));
    assert_eq!(curve, before);
}

#[test]
fn graduation_boundary_exact_landing() {
    let mut global = default_global();
    // no trade fee, threshold exactly one whole quote coin
    update_config(
        &mut global,
        deployer(),
        None,
        None,
        None,
        None,
        None,
        Some(0),
        None,
        None,
        Some(1_000_000_000),
        None,
    )
    .unwrap();
    let mut curve = new_curve(&global);
    let mut no_referral: Option<ReferralAccount> = None;
    let receipt = buy_token(&mut curve, &global, 1_000_000_000, 0, &mut no_referral).unwrap();
    assert_eq!(curve.real_sol_reserves, 1_000_000_000);
    assert!(receipt.completed_now);
    assert!(curve.completed);
    // once completed, ordinary trading is permanently disabled
    let r = buy_token(&mut curve, &global, 1, 0, &mut no_referral);
    assert_eq!(r, Err(OpError::Trade(TradeError::CurveCompleted)));
    let r = sell_token(&mut curve, &global, 1, 0, &mut no_referral, 2_000_000_000, 0);
    assert_eq!(r, Err(OpError::Trade(TradeError::CurveCompleted)));
    assert!(curve.completed);
}

#[test]
fn graduation_boundary_one_below() {
    let mut global = default_global();
    update_config(
        &mut global,
        deployer(),
        None,
        None,
        None,
        None,
        None,
        Some(0),
        None,
        None,
        Some(1_000_000_000),
        None,
    )
    .unwrap();
    let mut curve = new_curve(&global);
    let mut no_referral: Option<ReferralAccount> = None;
    let receipt = buy_token(&mut curve, &global, 999_999_999, 0, &mut no_referral).unwrap();
    assert_eq!(curve.real_sol_reserves, 999_999_999);
    assert!(!receipt.completed_now);
    assert!(!curve.completed);
}

#[test]
fn create_rejected_while_paused() {
    let mut global = default_global();
    update_config(
        &mut global,
        deployer(),
        None,
        None,
        None,
        None,
        None,
        None,
        None,
        None,
        None,
        Some(ProgramStatus::Paused),
    )
    .unwrap();
    let creator = Identity { hi: 1, lo: 2 };
    let mint = Identity { hi: 3, lo: 4 };
    let r = create_token(&global, creator, mint, 7);
    assert_eq!(r, Err(token_lp::errors::AdminError::ProgramPaused));
    let r = create_and_buy_token(&global, creator, mint, 7, 1_000_000_000, 0);
    assert_eq!(
        r,
        Err(OpError::Admin(token_lp::errors::AdminError::ProgramPaused))
    );
}

#[test]
fn create_and_buy_matches_separate_operations() {
    let global = default_global();
    let creator = Identity { hi: 1, lo: 2 };
    let mint = Identity { hi: 3, lo: 4 };
    let (curve, receipt) =
        create_and_buy_token(&global, creator, mint, 7, 1_000_000_000, 0).unwrap();
    let mut expected = new_curve(&global);
    let mut no_referral: Option<ReferralAccount> = None;
    let expected_receipt =
        buy_token(&mut expected, &global, 1_000_000_000, 0, &mut no_referral).unwrap();
    assert_eq!(curve, expected);
    assert_eq!(receipt, expected_receipt);
    assert_eq!(receipt.referral_fee, 0);
}
