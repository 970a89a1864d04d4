use ape_or_die::amount_config::AmountConfig;
use ape_or_die::config::{accept_authority, configure, nominate_authority, Config};
use ape_or_die::curve::{withdraw, BondingCurve};
use ape_or_die::errors::PumpfunError;
use ape_or_die::identity::Identity;

fn ident(n: u64) -> Identity {
    Identity { w0: n, w1: 0, w2: 0, w3: 0 }
}

fn base_config() -> Config {
    Config {
        authority: ident(1),
        pending_authority: Identity::zero(),
        team_wallet: ident(2),
        dev_wallet: ident(3),
        init_bonding_curve: 80,
        platform_buy_fee: 100,
        platform_sell_fee: 100,
        trading_fee_bps: 100,
        dev_fee_share_bps: 5000,
        dev_fee_enabled: true,
        curve_limit: 1_000_000_000,
        lamport_amount_config: AmountConfig::Range { min: None, max: None },
        token_supply_config: AmountConfig::Range { min: None, max: None },
        token_decimals_config: AmountConfig::Range { min: Some(6), max: Some(9) },
    }
}

#[test]
fn configure_fills_zero_fee_fields_with_defaults() {
    let mut submitted = base_config();
    submitted.trading_fee_bps = 0;
    submitted.dev_fee_share_bps = 0;
    let stored = configure(ident(1), ident(1), submitted).unwrap();
    assert_eq!(stored.trading_fee_bps, 100);
    assert_eq!(stored.dev_fee_share_bps, 5000);
    assert!(stored.dev_fee_enabled);
}

#[test]
fn configure_keeps_fee_fields_that_are_set() {
    let mut submitted = base_config();
    submitted.trading_fee_bps = 250;
    submitted.dev_fee_share_bps = 1000;
    let stored = configure(ident(1), ident(1), submitted).unwrap();
    assert_eq!(stored.trading_fee_bps, 250);
    assert_eq!(stored.dev_fee_share_bps, 1000);
}

#[test]
fn configure_disables_dev_leg_when_dev_wallet_is_zero() {
    let mut submitted = base_config();
    submitted.dev_wallet = Identity::zero();
    submitted.dev_fee_enabled = true;
    let stored = configure(ident(1), ident(1), submitted).unwrap();
    assert!(!stored.dev_fee_enabled);
}

#[test]
fn configure_refuses_a_caller_who_is_not_the_authority() {
    let r = configure(ident(1), ident(9), base_config());
    assert_eq!(r.unwrap_err(), PumpfunError::IncorrectAuthority);
}

#[test]
fn nominate_then_accept_hands_the_authority_over() {
    let mut config = base_config();
    let nominee = ident(42);
    nominate_authority(&mut config, ident(1), nominee).unwrap();
    assert_eq!(config.pending_authority, nominee);
    assert_eq!(config.authority, ident(1));
    accept_authority(&mut config, nominee).unwrap();
    assert_eq!(config.authority, nominee);
    assert_eq!(config.pending_authority, Identity::zero());
}

#[test]
fn nominate_refuses_a_caller_who_is_not_the_authority() {
    let mut config = base_config();
    let r = nominate_authority(&mut config, ident(9), ident(42));
    assert_eq!(r.unwrap_err(), PumpfunError::IncorrectAuthority);
    assert_eq!(config.pending_authority, Identity::zero());
    assert_eq!(config.authority, ident(1));
}

#[test]
fn accept_refuses_a_caller_who_is_not_the_nominee() {
    let mut config = base_config();
    nominate_authority(&mut config, ident(1), ident(42)).unwrap();
    let r = accept_authority(&mut config, ident(9));
    assert_eq!(r.unwrap_err(), PumpfunError::IncorrectAuthority);
    assert_eq!(config.authority, ident(1));
    assert_eq!(config.pending_authority, ident(42));
}

fn curve(reserve_token: u64, reserve_lamport: u64, curve_limit: u64, completed: bool) -> BondingCurve {
    BondingCurve {
        token_mint: ident(7),
        creator: ident(8),
        init_lamport: reserve_lamport,
        reserve_lamport,
        reserve_token,
        curve_limit,
        is_completed: completed,
    }
}

#[test]
fn withdraw_refuses_a_caller_who_is_not_the_authority() {
    let c = curve(1_000, 1_000, 2_000, true);
    let r = withdraw(&c, &base_config(), ident(9));
    assert_eq!(r.unwrap_err(), PumpfunError::IncorrectAuthority);
}

#[test]
fn withdraw_refuses_an_active_curve() {
    let c = curve(1_000, 1_000, 2_000, false);
    let r = withdraw(&c, &base_config(), ident(1));
    assert_eq!(r.unwrap_err(), PumpfunError::CurveNotCompleted);
}

#[test]
fn withdraw_accepts_the_authority_on_a_completed_curve() {
    let c = curve(1_000, 1_000, 2_000, true);
    assert_eq!(withdraw(&c, &base_config(), ident(1)), Ok(()));
}
