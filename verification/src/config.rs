//! The deployment-wide policy record and its administration: wholesale
//! replacement with defaults, and the two-step authority handoff.

use vstd::prelude::*;
use crate::amount_config::AmountConfig;
use crate::errors::PumpfunError;
use crate::identity::Identity;

verus! {

/// The singleton policy record of a deployment: the administrator and the
/// pending nominee, the fee destinations, the fee rates in basis points, the
/// completion threshold, and the launch-parameter constraints.
#[derive(Clone, Debug)]
pub struct Config {
    pub authority: Identity,
    pub pending_authority: Identity,
    pub team_wallet: Identity,
    pub dev_wallet: Identity,
    /// The percentage (0 to 100) of a launched token's supply seeded into the
    /// curve's token reserve; the remainder goes to the team wallet.
    pub init_bonding_curve: u64,
    /// The total fee rate in basis points charged on the gross native leg of a buy.
    pub platform_buy_fee: u128,
    /// The total fee rate in basis points charged on the gross native leg of a sell.
    pub platform_sell_fee: u128,
    /// The platform's share of the total fee, in basis points.
    pub trading_fee_bps: u16,
    /// The developer's share of the total fee, in basis points.
    pub dev_fee_share_bps: u16,
    /// Whether the developer fee leg is taken at all.
    pub dev_fee_enabled: bool,
    /// The native reserve, in lamports, at or above which a curve completes.
    pub curve_limit: u64,
    pub lamport_amount_config: AmountConfig,
    pub token_supply_config: AmountConfig,
    pub token_decimals_config: AmountConfig,
}

impl Config {
    /// The record's invariant: each fee rate stays within the basis-point
    /// denominator, the two fee shares partition at most the whole fee, the
    /// completion threshold is set, and the seeded share is a percentage.
    pub open spec fn wf(&self) -> bool {
        &&& self.platform_buy_fee <= 10000
        &&& self.platform_sell_fee <= 10000
        &&& self.trading_fee_bps + self.dev_fee_share_bps <= 10000
        &&& self.curve_limit > 0
        &&& self.init_bonding_curve <= 100
    }
}

/// The record `configure` stores for a submitted one: a zero platform fee
/// share defaults to 100 basis points, a zero developer share to 5000, and a
/// zero developer wallet disables the developer leg.
pub open spec fn spec_apply_config_defaults(c: Config) -> Config {
    Config {
        trading_fee_bps: if c.trading_fee_bps == 0 { 100u16 } else { c.trading_fee_bps },
        dev_fee_share_bps: if c.dev_fee_share_bps == 0 { 5000u16 } else { c.dev_fee_share_bps },
        dev_fee_enabled: if c.dev_wallet == Identity::spec_zero() { false } else { c.dev_fee_enabled },
        ..c
    }
}

/// Replaces the policy record wholesale. `authority` is the identity that may
/// perform the replacement — the stored administrator, or the deployment's
/// seed authority when no record exists yet — and `caller` is the identity
/// that signed the request. Zero-valued fee fields of the submitted record are
/// filled with their defaults, and a zero developer wallet switches the
/// developer leg off.
pub fn configure(authority: Identity, caller: Identity, new_config: Config) -> (r: Result<
    Config,
    PumpfunError,
>)
    ensures
        caller != authority ==> r == Err::<Config, PumpfunError>(PumpfunError::IncorrectAuthority),
        caller == authority ==> r == Ok::<Config, PumpfunError>(
            spec_apply_config_defaults(new_config),
        ),
{
    if caller != authority {
        return Err(PumpfunError::IncorrectAuthority);
    }
    let mut config = new_config;
    if config.trading_fee_bps == 0 {
        config.trading_fee_bps = 100;
    }
    if config.dev_fee_share_bps == 0 {
        config.dev_fee_share_bps = 5000;
    }
    if config.dev_wallet == Identity::zero() {
        config.dev_fee_enabled = false;
    }
    Ok(config)
}

/// The record `nominate_authority` leaves behind: the nominee written into
/// the pending slot, everything else untouched.
pub open spec fn spec_nominate(c: Config, new_admin: Identity) -> Config {
    Config { pending_authority: new_admin, ..c }
}

/// Writes `new_admin` into the pending slot of the record. Only the current
/// administrator may nominate; anyone else is refused and the record is left
/// untouched.
pub fn nominate_authority(config: &mut Config, caller: Identity, new_admin: Identity) -> (r: Result<
    (),
    PumpfunError,
>)
    ensures
        caller != old(config).authority ==> r == Err::<(), PumpfunError>(
            PumpfunError::IncorrectAuthority,
        ) && *final(config) == *old(config),
        caller == old(config).authority ==> r == Ok::<(), PumpfunError>(()) && *final(config)
            == spec_nominate(*old(config), new_admin),
{
    if caller != config.authority {
        return Err(PumpfunError::IncorrectAuthority);
    }
    config.pending_authority = new_admin;
    Ok(())
}

/// The record `accept_authority` leaves behind: the nominee promoted to
/// administrator and the pending slot cleared to the zero sentinel.
pub open spec fn spec_accept(c: Config) -> Config {
    Config { authority: c.pending_authority, pending_authority: Identity::spec_zero(), ..c }
}

/// Promotes the pending nominee. Only the nominee itself may accept; anyone
/// else is refused and the record is left untouched.
pub fn accept_authority(config: &mut Config, caller: Identity) -> (r: Result<(), PumpfunError>)
    ensures
        caller != old(config).pending_authority ==> r == Err::<(), PumpfunError>(
            PumpfunError::IncorrectAuthority,
        ) && *final(config) == *old(config),
        caller == old(config).pending_authority ==> r == Ok::<(), PumpfunError>(())
            && *final(config) == spec_accept(*old(config)),
{
    if caller != config.pending_authority {
        return Err(PumpfunError::IncorrectAuthority);
    }
    config.authority = config.pending_authority;
    config.pending_authority = Identity::zero();
    Ok(())
}

} // verus!
