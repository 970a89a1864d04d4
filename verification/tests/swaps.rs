use ape_or_die::amount_config::AmountConfig;
use ape_or_die::config::Config;
use ape_or_die::curve::BondingCurve;
use ape_or_die::errors::PumpfunError;
use ape_or_die::identity::Identity;

fn ident(n: u64) -> Identity {
    Identity { w0: n, w1: 0, w2: 0, w3: 0 }
}

fn fee_config(
    platform_buy_fee: u128,
    platform_sell_fee: u128,
    trading_fee_bps: u16,
    dev_fee_share_bps: u16,
    dev_fee_enabled: bool,
    curve_limit: u64,
) -> Config {
    Config {
        authority: ident(1),
        pending_authority: Identity::zero(),
        team_wallet: ident(2),
        dev_wallet: ident(3),
        init_bonding_curve: 80,
        platform_buy_fee,
        platform_sell_fee,
        trading_fee_bps,
        dev_fee_share_bps,
        dev_fee_enabled,
        curve_limit,
        lamport_amount_config: AmountConfig::Range { min: None, max: None },
        token_supply_config: AmountConfig::Range { min: None, max: None },
        token_decimals_config: AmountConfig::Range { min: None, max: None },
    }
}

fn curve(reserve_token: u64, reserve_lamport: u64, curve_limit: u64) -> BondingCurve {
    BondingCurve {
        token_mint: ident(7),
        creator: ident(8),
        init_lamport: reserve_lamport,
        reserve_lamport,
        reserve_token,
        curve_limit,
        is_completed: false,
    }
}

const NOW: i64 = 1_700_000_000;

#[test]
fn simple_buy_prices_fees_and_updates_reserves() {
    let config = fee_config(100, 100, 100, 5000, true, 1_000_000_000_000);
    let mut c = curve(1_000_000_000_000, 30_000_000_000, 1_000_000_000_000);
    let r = c.swap(&config, 1_000_000_000, 0, 0, NOW + 60, NOW).unwrap();
    assert_eq!(r.amount_out, 31_945_788_964);
    assert_eq!(r.platform_fee, 100_000);
    assert_eq!(r.dev_fee, 5_000_000);
    assert_eq!(r.amount_to_swap, 1_000_000_000);
    assert!(!r.completed);
    assert_eq!(c.reserve_token, 968_054_211_036);
    assert_eq!(c.reserve_lamport, 30_994_900_000);
    assert!(!c.is_completed);
}

#[test]
fn sell_after_the_buy_prices_the_gross_output_and_fee() {
    let config = fee_config(100, 100, 100, 5000, true, 1_000_000_000_000);
    let mut c = curve(1_000_000_000_000, 30_000_000_000, 1_000_000_000_000);
    c.swap(&config, 1_000_000_000, 0, 0, NOW + 60, NOW).unwrap();
    let r = c.swap(&config, 10_000_000_000, 1, 0, NOW + 60, NOW).unwrap();
    // gross 316_903_701 lamports, fee 3_169_037, net to the user the difference
    assert_eq!(r.amount_out, 313_734_664);
    assert_eq!(r.platform_fee, 31_690);
    assert_eq!(r.dev_fee, 1_584_518);
    assert_eq!(r.amount_to_swap, 10_000_000_000);
    assert_eq!(c.reserve_token, 978_054_211_036);
    assert_eq!(c.reserve_lamport, 30_679_549_128);
    assert!(!c.is_completed);
}

#[test]
fn buy_over_the_boundary_is_capped_and_completes_the_curve() {
    let config = fee_config(0, 0, 100, 5000, true, 100_000_000);
    let mut c = curve(1_000_000_000_000, 99_000_000, 100_000_000);
    let r = c.swap(&config, 10_000_000, 0, 100_000, NOW + 60, NOW).unwrap();
    // only the remaining 1_000_000 lamports are spent; the floor is pro-rated to 10_000
    assert_eq!(r.amount_to_swap, 1_000_000);
    assert_eq!(r.amount_out, 10_000_000_000);
    assert_eq!(r.platform_fee, 0);
    assert_eq!(r.dev_fee, 0);
    assert!(r.completed);
    assert_eq!(c.reserve_lamport, 100_000_000);
    assert_eq!(c.reserve_token, 1_000_000_000_000 - 10_000_000_000);
    assert!(c.is_completed);
}

#[test]
fn buy_below_the_slippage_floor_is_rejected_without_state_change() {
    let config = fee_config(100, 100, 100, 5000, true, 1_000_000_000_000);
    let mut c = curve(1_000_000_000_000, 30_000_000_000, 1_000_000_000_000);
    let before = c;
    let r = c.swap(&config, 1_000_000_000, 0, 40_000_000_000, NOW + 60, NOW);
    assert_eq!(r.unwrap_err(), PumpfunError::ReturnAmountTooSmall);
    assert_eq!(c, before);
}

#[test]
fn swap_at_the_deadline_succeeds_and_after_it_expires() {
    let config = fee_config(100, 100, 100, 5000, true, 1_000_000_000_000);
    let mut c = curve(1_000_000_000_000, 30_000_000_000, 1_000_000_000_000);
    let before = c;
    let r = c.swap(&config, 1_000_000_000, 0, 0, NOW, NOW + 1);
    assert_eq!(r.unwrap_err(), PumpfunError::TransactionExpired);
    assert_eq!(c, before);
    assert!(c.swap(&config, 1_000_000_000, 0, 0, NOW, NOW).is_ok());
}

#[test]
fn zero_amount_is_rejected() {
    let config = fee_config(100, 100, 100, 5000, true, 1_000_000_000_000);
    let mut c = curve(1_000_000_000_000, 30_000_000_000, 1_000_000_000_000);
    let before = c;
    let r = c.swap(&config, 0, 0, 0, NOW + 60, NOW);
    assert_eq!(r.unwrap_err(), PumpfunError::InvalidAmount);
    assert_eq!(c, before);
}

#[test]
fn completed_curve_refuses_every_swap() {
    let config = fee_config(0, 0, 100, 5000, true, 100_000_000);
    let mut c = curve(1_000_000_000_000, 99_000_000, 100_000_000);
    c.swap(&config, 10_000_000, 0, 100_000, NOW + 60, NOW).unwrap();
    assert!(c.is_completed);
    let before = c;
    let r = c.swap(&config, 1_000, 0, 0, NOW + 60, NOW);
    assert_eq!(r.unwrap_err(), PumpfunError::CurveAlreadyCompleted);
    let r = c.swap(&config, 1_000, 1, 0, NOW + 60, NOW);
    assert_eq!(r.unwrap_err(), PumpfunError::CurveAlreadyCompleted);
    assert_eq!(c, before);
}

#[test]
fn empty_pool_prices_everything_at_zero() {
    let c = curve(0, 30_000_000_000, 1_000_000_000_000);
    assert_eq!(c.cal_amount_out(1_000, 0, 100, 100, 100, 5000, true), Ok((0, 0, 0)));
    assert_eq!(c.cal_amount_out(1_000, 1, 100, 100, 100, 5000, true), Ok((0, 0, 0)));
    let c = curve(1_000_000, 0, 1_000_000_000_000);
    assert_eq!(c.cal_amount_out(1_000, 0, 100, 100, 100, 5000, true), Ok((0, 0, 0)));
    assert_eq!(c.cal_amount_out(1_000, 1, 100, 100, 100, 5000, true), Ok((0, 0, 0)));
}

#[test]
fn sell_that_overflows_the_token_reserve_is_an_arithmetic_error() {
    let config = fee_config(100, 100, 100, 5000, true, u64::MAX);
    let mut c = curve(u64::MAX, 1_000, u64::MAX);
    let before = c;
    let r = c.swap(&config, 1_000, 1, 0, NOW + 60, NOW);
    assert_eq!(r.unwrap_err(), PumpfunError::OverflowOrUnderflowOccurred);
    assert_eq!(c, before);
}

#[test]
fn pricing_is_deterministic() {
    let c = curve(1_000_000_000_000, 30_000_000_000, 1_000_000_000_000);
    let a = c.cal_amount_out(1_000_000_000, 0, 100, 100, 100, 5000, true);
    let b = c.cal_amount_out(1_000_000_000, 0, 100, 100, 100, 5000, true);
    assert_eq!(a, b);
}

#[test]
fn two_buys_land_within_one_token_of_the_combined_buy() {
    // fee-free so the inputs are the effective inputs
    let config = fee_config(0, 0, 0, 0, false, u64::MAX);
    let mut split = curve(1_000_000_000_000, 30_000_000_000, u64::MAX);
    let ra = split.swap(&config, 1_000_000_000, 0, 0, NOW + 60, NOW).unwrap();
    let rb = split.swap(&config, 2_000_000_000, 0, 0, NOW + 60, NOW).unwrap();
    assert_eq!(ra.amount_out, 32_258_064_516);
    assert_eq!(rb.amount_out, 58_651_026_392);
    let mut combined = curve(1_000_000_000_000, 30_000_000_000, u64::MAX);
    let rc = combined.swap(&config, 3_000_000_000, 0, 0, NOW + 60, NOW).unwrap();
    assert_eq!(rc.amount_out, 90_909_090_909);
    assert_eq!(split.reserve_lamport, combined.reserve_lamport);
    // floor division withheld one token from the split buys
    assert_eq!(split.reserve_token, combined.reserve_token + 1);
}

#[test]
fn buy_on_a_curve_already_at_its_threshold_spends_nothing_and_completes() {
    // the remainder saturates at zero, so the buy is capped to nothing and the
    // latch closes on the unchanged reserve
    let config = fee_config(100, 100, 100, 5000, true, 1_000);
    let mut c = curve(1_000_000, 5_000, 1_000);
    let r = c.swap(&config, 500, 0, 0, NOW + 60, NOW).unwrap();
    assert_eq!(r.amount_to_swap, 0);
    assert_eq!(r.amount_out, 0);
    assert!(r.completed);
    assert_eq!(c.reserve_lamport, 5_000);
    assert_eq!(c.reserve_token, 1_000_000);
    assert!(c.is_completed);
}

#[test]
fn successful_swaps_keep_both_reserves_positive() {
    let config = fee_config(100, 100, 100, 5000, true, u64::MAX);
    let mut c = curve(1_000, 1_000, u64::MAX);
    // a sell far larger than the pool still leaves a populated pool
    let r = c.swap(&config, u64::MAX / 2, 1, 0, NOW + 60, NOW).unwrap();
    assert!(c.reserve_token > 0);
    assert!(c.reserve_lamport > 0);
    assert!(r.amount_out < 1_000);
}
