//! Laws relating the operations to one another: determinism of pricing,
//! composition of successive buys, and the two-step authority handoff.

use vstd::prelude::*;
use crate::config::{spec_accept, spec_nominate, Config};
use crate::curve::spec_cal_amount_out;
use crate::errors::PumpfunError;
use crate::identity::Identity;
use crate::math::{lemma_curve_out_compose, spec_curve_out};

verus! {

/// Law: pricing is deterministic. Any two results that the pricing contract
/// admits for identical reserves, amount, direction and fee parameters are
/// equal, bit for bit.
pub proof fn lemma_pricing_deterministic(
    r1: Result<(u64, u64, u64), PumpfunError>,
    r2: Result<(u64, u64, u64), PumpfunError>,
    reserve_token: u64,
    reserve_lamport: u64,
    amount: u64,
    direction: u8,
    platform_sell_fee: u128,
    platform_buy_fee: u128,
    trading_fee_bps: u16,
    dev_fee_share_bps: u16,
    dev_fee_enabled: bool,
)
    requires
        ({
            let (out, pf, df) = spec_cal_amount_out(
                reserve_token,
                reserve_lamport,
                amount,
                direction,
                platform_sell_fee,
                platform_buy_fee,
                trading_fee_bps,
                dev_fee_share_bps,
                dev_fee_enabled,
            );
            &&& r1 is Ok && r1->Ok_0.0 == out && r1->Ok_0.1 == pf && r1->Ok_0.2 == df
            &&& r2 is Ok && r2->Ok_0.0 == out && r2->Ok_0.1 == pf && r2->Ok_0.2 == df
        }),
    ensures
        r1 == r2,
{
}

/// Law: buys compose. Two successive buys whose post-fee inputs are `a` and
/// then `b` leave the native reserve exactly where one buy of the combined
/// post-fee input leaves it, and leave the token reserve within one smallest
/// unit of it — floor division may withhold at most one token from the split
/// buys, never pay more.
pub proof fn lemma_sequential_buys(reserve_token: u64, reserve_lamport: u64, a: u64, b: u64)
    requires
        reserve_token >= 1,
        reserve_lamport >= 1,
    ensures
        ({
            let out_a = spec_curve_out(reserve_token as int, reserve_lamport as int, a as int);
            let out_b = spec_curve_out(reserve_token - out_a, reserve_lamport + a, b as int);
            let out_ab = spec_curve_out(reserve_token as int, reserve_lamport as int, a + b);
            &&& (reserve_lamport + a) + b == reserve_lamport + (a + b)
            &&& out_ab - 1 <= out_a + out_b <= out_ab
            &&& reserve_token - out_ab <= (reserve_token - out_a) - out_b <= (reserve_token
                - out_ab) + 1
        }),
{
    lemma_curve_out_compose(reserve_token as int, reserve_lamport as int, a as int, b as int);
}

/// Law: the two-step handoff composes. Nominating `new_admin` and then
/// accepting as `new_admin` hands the authority over and clears the pending
/// slot to the zero sentinel; every other field is untouched.
pub proof fn lemma_nominate_then_accept(c: Config, new_admin: Identity)
    ensures
        ({
            let nominated = spec_nominate(c, new_admin);
            let accepted = spec_accept(nominated);
            &&& accepted.authority == new_admin
            &&& accepted.pending_authority == Identity::spec_zero()
            &&& accepted.team_wallet == c.team_wallet
            &&& accepted.dev_wallet == c.dev_wallet
            &&& accepted.init_bonding_curve == c.init_bonding_curve
            &&& accepted.platform_buy_fee == c.platform_buy_fee
            &&& accepted.platform_sell_fee == c.platform_sell_fee
            &&& accepted.trading_fee_bps == c.trading_fee_bps
            &&& accepted.dev_fee_share_bps == c.dev_fee_share_bps
            &&& accepted.dev_fee_enabled == c.dev_fee_enabled
            &&& accepted.curve_limit == c.curve_limit
            &&& accepted.lamport_amount_config == c.lamport_amount_config
            &&& accepted.token_supply_config == c.token_supply_config
            &&& accepted.token_decimals_config == c.token_decimals_config
        }),
{
}

} // verus!
