//! The per-token bonding curve: the reserve record, the constant-product
//! pricing engine, the swap orchestrator with its completion latch, the launch
//! initializer and the withdraw authorization.

use vstd::prelude::*;
use crate::config::Config;
use crate::errors::PumpfunError;
use crate::identity::Identity;
use crate::math::{
    lemma_curve_out_bounds, lemma_fee_bps_le, lemma_fee_split_le, lemma_mul_div_le,
    spec_curve_out, spec_fee_bps, FEE_BASIS_POINTS,
};
use vstd::arithmetic::mul::lemma_mul_upper_bound;

verus! {

/// The reserve state of one launched token: the identities of the mint and
/// the launcher, the virtual native reserve it started with, the two live
/// reserves, the completion threshold snapshotted from the policy record at
/// launch, and the one-way completion latch.
#[derive(Clone, Copy, Debug, PartialEq, Eq, Structural)]
pub struct BondingCurve {
    pub token_mint: Identity,
    pub creator: Identity,
    pub init_lamport: u64,
    pub reserve_lamport: u64,
    pub reserve_token: u64,
    pub curve_limit: u64,
    pub is_completed: bool,
}

/// What one successful swap settles: the output owed to the user, the two fee
/// legs, the input actually spent, and whether the swap completed the curve.
#[derive(Clone, Copy, Debug, PartialEq, Eq, Structural)]
pub struct SwapResult {
    /// What the user receives: tokens on a buy, net lamports on a sell.
    pub amount_out: u64,
    /// The fee leg owed to the team wallet, in lamports.
    pub platform_fee: u64,
    /// The fee leg owed to the developer wallet, in lamports.
    pub dev_fee: u64,
    /// The input actually spent; on a buy it is capped at the completion boundary.
    pub amount_to_swap: u64,
    /// Whether this swap drove the native reserve to the curve's threshold.
    pub completed: bool,
}

/// The pricing triple `(output, platform fee, developer fee)` for a swap of
/// `amount` against the given reserves. An empty pool prices everything at
/// zero. A sell (direction 1) quotes the gross native output by the
/// constant-product rule and takes the fee off that output; a buy (any other
/// direction) takes the fee off the input and quotes the token output on the
/// remainder. Both fee legs are independent basis-point shares of the fee.
pub open spec fn spec_cal_amount_out(
    reserve_token: u64,
    reserve_lamport: u64,
    amount: u64,
    direction: u8,
    platform_sell_fee: u128,
    platform_buy_fee: u128,
    trading_fee_bps: u16,
    dev_fee_share_bps: u16,
    dev_fee_enabled: bool,
) -> (int, int, int) {
    if reserve_token == 0 || reserve_lamport == 0 {
        (0, 0, 0)
    } else if direction == 1 {
        let gross = spec_curve_out(reserve_lamport as int, reserve_token as int, amount as int);
        let sol_fee = spec_fee_bps(gross, platform_sell_fee as int);
        (
            gross - sol_fee,
            spec_fee_bps(sol_fee, trading_fee_bps as int),
            if dev_fee_enabled {
                spec_fee_bps(sol_fee, dev_fee_share_bps as int)
            } else {
                0
            },
        )
    } else {
        let sol_fee = spec_fee_bps(amount as int, platform_buy_fee as int);
        let adjusted = amount - sol_fee;
        (
            spec_curve_out(reserve_token as int, reserve_lamport as int, adjusted),
            spec_fee_bps(sol_fee, trading_fee_bps as int),
            if dev_fee_enabled {
                spec_fee_bps(sol_fee, dev_fee_share_bps as int)
            } else {
                0
            },
        )
    }
}

/// The pricing triple stays within the reserves it is paid from: on a sell the
/// whole gross output (user leg plus both fee legs) stays strictly inside the
/// native reserve of a populated pool, and on a buy the fee legs stay inside
/// the input while the output stays inside the token reserve.
pub proof fn lemma_cal_amount_out_bounds(
    reserve_token: u64,
    reserve_lamport: u64,
    amount: u64,
    direction: u8,
    platform_sell_fee: u128,
    platform_buy_fee: u128,
    trading_fee_bps: u16,
    dev_fee_share_bps: u16,
    dev_fee_enabled: bool,
)
    requires
        platform_sell_fee <= 10000,
        platform_buy_fee <= 10000,
        trading_fee_bps + dev_fee_share_bps <= 10000,
    ensures
        ({
            let (out, pf, df) = spec_cal_amount_out(
                reserve_token,
                reserve_lamport,
                amount,
                direction,
                platform_sell_fee,
                platform_buy_fee,
                trading_fee_bps,
                dev_fee_share_bps,
                dev_fee_enabled,
            );
            &&& 0 <= out
            &&& 0 <= pf
            &&& 0 <= df
            &&& direction == 1 ==> out + pf + df <= reserve_lamport
            &&& (direction == 1 && reserve_token > 0 && reserve_lamport > 0) ==> out + pf + df
                < reserve_lamport
            &&& direction != 1 ==> pf + df <= amount && out <= reserve_token
            &&& (direction != 1 && reserve_token > 0 && reserve_lamport > 0) ==> out
                < reserve_token
        }),
{
    if reserve_token == 0 || reserve_lamport == 0 {
    } else if direction == 1 {
        let gross = spec_curve_out(reserve_lamport as int, reserve_token as int, amount as int);
        lemma_curve_out_bounds(reserve_lamport as int, reserve_token as int, amount as int);
        let sol_fee = spec_fee_bps(gross, platform_sell_fee as int);
        lemma_fee_bps_le(gross, platform_sell_fee as int);
        lemma_fee_split_le(sol_fee, trading_fee_bps as int, dev_fee_share_bps as int);
        lemma_fee_bps_le(sol_fee, trading_fee_bps as int);
    } else {
        let sol_fee = spec_fee_bps(amount as int, platform_buy_fee as int);
        lemma_fee_bps_le(amount as int, platform_buy_fee as int);
        let adjusted = amount - sol_fee;
        lemma_curve_out_bounds(reserve_token as int, reserve_lamport as int, adjusted);
        lemma_fee_split_le(sol_fee, trading_fee_bps as int, dev_fee_share_bps as int);
        lemma_fee_bps_le(sol_fee, trading_fee_bps as int);
    }
}

/// How far the native reserve is from the curve's threshold; zero once the
/// threshold is met (the subtraction saturates).
pub open spec fn spec_remaining(c: BondingCurve) -> int {
    if c.curve_limit >= c.reserve_lamport {
        c.curve_limit - c.reserve_lamport
    } else {
        0
    }
}

/// The post-state and outcome of a successful swap: the reserves are replaced,
/// and the completion latch is set exactly when the new native reserve meets
/// the curve's threshold.
pub open spec fn spec_swap_ok(
    c: BondingCurve,
    new_reserve_token: int,
    new_reserve_lamport: int,
    out: int,
    platform_fee: int,
    dev_fee: int,
    amount_to_swap: int,
) -> (BondingCurve, SwapResult) {
    let completed = new_reserve_lamport >= c.curve_limit;
    (
        BondingCurve {
            reserve_token: new_reserve_token as u64,
            reserve_lamport: new_reserve_lamport as u64,
            is_completed: c.is_completed || completed,
            ..c
        },
        SwapResult {
            amount_out: out as u64,
            platform_fee: platform_fee as u64,
            dev_fee: dev_fee as u64,
            amount_to_swap: amount_to_swap as u64,
            completed,
        },
    )
}

/// The swap's whole effect as a function of the pre-state and the call's
/// arguments: either the updated curve paired with the outcome, or the error —
/// a zero amount, an expired deadline, an already completed curve, an output
/// below the (pro-rated) slippage floor, or a reserve update that would leave
/// the 64-bit range. A buy whose input exceeds what the curve can still take
/// is capped to that remainder, and its slippage floor is scaled by the same
/// ratio. Only a sell's token-reserve update can overflow: the cap keeps a
/// buy's native reserve at or below the threshold, and a populated pool never
/// pays out more than it holds.
pub open spec fn spec_swap(
    c: BondingCurve,
    cfg: Config,
    amount: u64,
    direction: u8,
    minimum_receive_amount: u64,
    deadline: i64,
    now: i64,
) -> Result<(BondingCurve, SwapResult), PumpfunError> {
    if amount == 0 {
        Err(PumpfunError::InvalidAmount)
    } else if now > deadline {
        Err(PumpfunError::TransactionExpired)
    } else if c.is_completed {
        Err(PumpfunError::CurveAlreadyCompleted)
    } else {
        let remaining = spec_remaining(c);
        let capped = direction != 1 && amount > remaining;
        let amount_to_swap: int = if capped {
            remaining
        } else {
            amount as int
        };
        let adjusted_minimum: int = if capped {
            minimum_receive_amount * remaining / (amount as int)
        } else {
            minimum_receive_amount as int
        };
        let (out, platform_fee, dev_fee) = spec_cal_amount_out(
            c.reserve_token,
            c.reserve_lamport,
            amount_to_swap as u64,
            direction,
            cfg.platform_sell_fee,
            cfg.platform_buy_fee,
            cfg.trading_fee_bps,
            cfg.dev_fee_share_bps,
            cfg.dev_fee_enabled,
        );
        if out < adjusted_minimum {
            Err(PumpfunError::ReturnAmountTooSmall)
        } else if direction == 1 {
            let new_reserve_token = c.reserve_token + amount_to_swap;
            let new_reserve_lamport = c.reserve_lamport - (out + platform_fee + dev_fee);
            if new_reserve_token > u64::MAX {
                Err(PumpfunError::OverflowOrUnderflowOccurred)
            } else {
                Ok(
                    spec_swap_ok(
                        c,
                        new_reserve_token,
                        new_reserve_lamport,
                        out,
                        platform_fee,
                        dev_fee,
                        amount_to_swap,
                    ),
                )
            }
        } else {
            let new_reserve_token = c.reserve_token - out;
            let new_reserve_lamport = c.reserve_lamport + (amount_to_swap - (platform_fee
                + dev_fee));
            Ok(
                spec_swap_ok(
                    c,
                    new_reserve_token,
                    new_reserve_lamport,
                    out,
                    platform_fee,
                    dev_fee,
                    amount_to_swap,
                ),
            )
        }
    }
}

impl BondingCurve {
    /// The curve's invariant: while it is active, both sides of the pool are
    /// populated. Completion releases the bound — a completed curve only
    /// waits to be drained.
    pub open spec fn wf(&self) -> bool {
        !self.is_completed ==> self.reserve_token > 0 && self.reserve_lamport > 0
    }

    /// Stores the two reserves and latches the completion flag once the new
    /// native reserve meets the curve's threshold. Returns whether the
    /// threshold is met; the latch is never cleared.
    pub fn update_reserves(&mut self, reserve_token: u64, reserve_lamport: u64) -> (r: Result<
        bool,
        PumpfunError,
    >)
        ensures
            r == Ok::<bool, PumpfunError>(reserve_lamport >= old(self).curve_limit),
            *final(self) == (BondingCurve {
                reserve_token,
                reserve_lamport,
                is_completed: old(self).is_completed || reserve_lamport >= old(self).curve_limit,
                ..*old(self)
            }),
            old(self).is_completed ==> final(self).is_completed,
    {
        self.reserve_token = reserve_token;
        self.reserve_lamport = reserve_lamport;
        if reserve_lamport >= self.curve_limit {
            self.is_completed = true;
            return Ok(true);
        }
        Ok(false)
    }

    /// Prices a swap of `amount` against the current reserves: the output, the
    /// platform fee leg and the developer fee leg, each pinned to the pricing
    /// triple. An empty pool prices to `(0, 0, 0)`; within the basis-point fee
    /// bounds the computation never fails.
    pub fn cal_amount_out(
        &self,
        amount: u64,
        direction: u8,
        platform_sell_fee: u128,
        platform_buy_fee: u128,
        trading_fee_bps: u16,
        dev_fee_share_bps: u16,
        dev_fee_enabled: bool,
    ) -> (r: Result<(u64, u64, u64), PumpfunError>)
        requires
            platform_sell_fee <= 10000,
            platform_buy_fee <= 10000,
            trading_fee_bps <= 10000,
            dev_fee_share_bps <= 10000,
        ensures
            r is Ok,
            ({
                let (out, pf, df) = spec_cal_amount_out(
                    self.reserve_token,
                    self.reserve_lamport,
                    amount,
                    direction,
                    platform_sell_fee,
                    platform_buy_fee,
                    trading_fee_bps,
                    dev_fee_share_bps,
                    dev_fee_enabled,
                );
                &&& r->Ok_0.0 == out
                &&& r->Ok_0.1 == pf
                &&& r->Ok_0.2 == df
            }),
            self.reserve_token == 0 || self.reserve_lamport == 0 ==> r == Ok::<
                (u64, u64, u64),
                PumpfunError,
            >((0u64, 0u64, 0u64)),
    {
        let reserve_token = self.reserve_token;
        let reserve_lamport = self.reserve_lamport;
        if reserve_token == 0 || reserve_lamport == 0 {
            return Ok((0, 0, 0));
        }
        proof {
            assert((u64::MAX as int) * (u64::MAX as int) <= u128::MAX as int);
        }
        let amount_u128 = amount as u128;
        if direction == 1 {
            proof {
                lemma_mul_upper_bound(
                    reserve_lamport as int,
                    u64::MAX as int,
                    amount as int,
                    u64::MAX as int,
                );
                lemma_curve_out_bounds(
                    reserve_lamport as int,
                    reserve_token as int,
                    amount as int,
                );
            }
            let numerator = (reserve_lamport as u128) * amount_u128;
            let denominator = (reserve_token as u128) + amount_u128;
            let gross_sol_output = numerator / denominator;
            proof {
                lemma_fee_bps_le(gross_sol_output as int, platform_sell_fee as int);
                lemma_mul_upper_bound(
                    gross_sol_output as int,
                    u64::MAX as int,
                    platform_sell_fee as int,
                    10000,
                );
            }
            let sol_fee = gross_sol_output * platform_sell_fee / FEE_BASIS_POINTS;
            let net_sol_output = gross_sol_output - sol_fee;
            proof {
                lemma_fee_bps_le(sol_fee as int, trading_fee_bps as int);
                lemma_fee_bps_le(sol_fee as int, dev_fee_share_bps as int);
                lemma_mul_upper_bound(sol_fee as int, u64::MAX as int, 10000, 10000);
            }
            let platform_fee = sol_fee * (trading_fee_bps as u128) / FEE_BASIS_POINTS;
            let dev_fee = if dev_fee_enabled {
                sol_fee * (dev_fee_share_bps as u128) / FEE_BASIS_POINTS
            } else {
                0
            };
            Ok((net_sol_output as u64, platform_fee as u64, dev_fee as u64))
        } else {
            proof {
                lemma_mul_upper_bound(amount as int, u64::MAX as int, platform_buy_fee as int, 10000);
                lemma_fee_bps_le(amount as int, platform_buy_fee as int);
            }
            let sol_fee = amount_u128 * platform_buy_fee / FEE_BASIS_POINTS;
            let adjusted_sol_input = amount_u128 - sol_fee;
            proof {
                lemma_mul_upper_bound(
                    reserve_token as int,
                    u64::MAX as int,
                    adjusted_sol_input as int,
                    u64::MAX as int,
                );
                lemma_curve_out_bounds(
                    reserve_token as int,
                    reserve_lamport as int,
                    adjusted_sol_input as int,
                );
                lemma_fee_bps_le(sol_fee as int, trading_fee_bps as int);
                lemma_fee_bps_le(sol_fee as int, dev_fee_share_bps as int);
                lemma_mul_upper_bound(sol_fee as int, u64::MAX as int, 10000, 10000);
            }
            let numerator = (reserve_token as u128) * adjusted_sol_input;
            let denominator = (reserve_lamport as u128) + adjusted_sol_input;
            let token_output = numerator / denominator;
            let platform_fee = sol_fee * (trading_fee_bps as u128) / FEE_BASIS_POINTS;
            let dev_fee = if dev_fee_enabled {
                sol_fee * (dev_fee_share_bps as u128) / FEE_BASIS_POINTS
            } else {
                0
            };
            Ok((token_output as u64, platform_fee as u64, dev_fee as u64))
        }
    }

    /// Performs one swap against the curve. The whole effect — guards, the
    /// completion-boundary cap, pricing, the slippage floor, the reserve
    /// update and the completion latch — equals the swap model on the
    /// pre-state; an error leaves the curve untouched. A completed curve
    /// refuses every swap and the latch is one-way; a successful swap never
    /// drains a populated pool, and moves the native reserve up on a buy and
    /// down on a sell.
    pub fn swap(
        &mut self,
        config: &Config,
        amount: u64,
        direction: u8,
        minimum_receive_amount: u64,
        deadline: i64,
        now: i64,
    ) -> (r: Result<SwapResult, PumpfunError>)
        requires
            config.wf(),
        ensures
            ({
                let m = spec_swap(
                    *old(self),
                    *config,
                    amount,
                    direction,
                    minimum_receive_amount,
                    deadline,
                    now,
                );
                match m {
                    Ok(p) => r == Ok::<SwapResult, PumpfunError>(p.1) && *final(self) == p.0,
                    Err(e) => r == Err::<SwapResult, PumpfunError>(e)
                        && *final(self) == *old(self),
                }
            }),
            old(self).is_completed ==> r is Err && *final(self) == *old(self),
            old(self).is_completed ==> final(self).is_completed,
            r is Err ==> *final(self) == *old(self),
            r is Ok && direction != 1
                ==> final(self).reserve_lamport >= old(self).reserve_lamport,
            r is Ok && direction == 1
                ==> final(self).reserve_lamport <= old(self).reserve_lamport,
            (r is Ok && old(self).reserve_token > 0 && old(self).reserve_lamport > 0)
                ==> final(self).reserve_token > 0 && final(self).reserve_lamport > 0,
            old(self).wf() ==> final(self).wf(),
            (r == Err::<SwapResult, PumpfunError>(PumpfunError::InvalidAmount)) <==> amount == 0,
            amount != 0 ==> ((r == Err::<SwapResult, PumpfunError>(
                PumpfunError::TransactionExpired,
            )) <==> now > deadline),
            (r is Ok && direction != 1 && amount > spec_remaining(*old(self))) ==> r->Ok_0
                .amount_to_swap == spec_remaining(*old(self)),
    {
        if amount == 0 {
            return Err(PumpfunError::InvalidAmount);
        }
        if now > deadline {
            return Err(PumpfunError::TransactionExpired);
        }
        if self.is_completed {
            return Err(PumpfunError::CurveAlreadyCompleted);
        }
        let (amount_to_swap, adjusted_minimum_receive): (u64, u64) = if direction == 1 {
            (amount, minimum_receive_amount)
        } else {
            let remaining = if self.curve_limit >= self.reserve_lamport {
                self.curve_limit - self.reserve_lamport
            } else {
                0
            };
            if amount > remaining {
                proof {
                    assert((u64::MAX as int) * (u64::MAX as int) <= u128::MAX as int);
                    lemma_mul_upper_bound(
                        minimum_receive_amount as int,
                        u64::MAX as int,
                        remaining as int,
                        u64::MAX as int,
                    );
                    lemma_mul_div_le(minimum_receive_amount as int, remaining as int, amount as int);
                }
                let adjusted = ((minimum_receive_amount as u128) * (remaining as u128) / (
                amount as u128)) as u64;
                (remaining, adjusted)
            } else {
                (amount, minimum_receive_amount)
            }
        };
        let priced = self.cal_amount_out(
            amount_to_swap,
            direction,
            config.platform_sell_fee,
            config.platform_buy_fee,
            config.trading_fee_bps,
            config.dev_fee_share_bps,
            config.dev_fee_enabled,
        );
        let (amount_out, platform_fee, dev_fee) = match priced {
            Ok(t) => t,
            Err(e) => {
                return Err(e);
            },
        };
        proof {
            lemma_cal_amount_out_bounds(
                self.reserve_token,
                self.reserve_lamport,
                amount_to_swap,
                direction,
                config.platform_sell_fee,
                config.platform_buy_fee,
                config.trading_fee_bps,
                config.dev_fee_share_bps,
                config.dev_fee_enabled,
            );
        }
        let total_fee = platform_fee + dev_fee;
        if amount_out < adjusted_minimum_receive {
            return Err(PumpfunError::ReturnAmountTooSmall);
        }
        if direction == 1 {
            let gross_sol_output = amount_out + total_fee;
            let new_reserve_token = match self.reserve_token.checked_add(amount_to_swap) {
                Some(v) => v,
                None => {
                    return Err(PumpfunError::OverflowOrUnderflowOccurred);
                },
            };
            let new_reserve_lamport = self.reserve_lamport - gross_sol_output;
            let completed = match self.update_reserves(new_reserve_token, new_reserve_lamport) {
                Ok(b) => b,
                Err(e) => {
                    return Err(e);
                },
            };
            Ok(SwapResult { amount_out, platform_fee, dev_fee, amount_to_swap, completed })
        } else {
            let adjusted_sol_input = amount_to_swap - total_fee;
            let new_reserve_token = self.reserve_token - amount_out;
            let new_reserve_lamport = self.reserve_lamport + adjusted_sol_input;
            let completed = match self.update_reserves(new_reserve_token, new_reserve_lamport) {
                Ok(b) => b,
                Err(e) => {
                    return Err(e);
                },
            };
            Ok(SwapResult { amount_out, platform_fee, dev_fee, amount_to_swap, completed })
        }
    }
}

/// The token reserve a launch seeds: `init_bonding_curve` percent of the
/// minted supply, floor division.
pub open spec fn spec_launch_reserve_token(token_supply: u64, init_bonding_curve: u64) -> int {
    token_supply * init_bonding_curve / 100
}

/// Creates the bonding curve for a newly launched token. Each launch parameter
/// must pass its configured constraint; the curve starts uncompleted with the
/// virtual native reserve, the configured percentage of the supply as its
/// token reserve, and the completion threshold snapshotted from the policy
/// record. Returns the curve together with the remainder of the supply owed to
/// the team wallet.
pub fn launch(
    config: &Config,
    token_mint: Identity,
    creator: Identity,
    decimals: u8,
    token_supply: u64,
    virtual_lamport_reserves: u64,
) -> (r: Result<(BondingCurve, u64), PumpfunError>)
    requires
        config.wf(),
    ensures
        ({
            let vd = config.token_decimals_config.spec_validate(decimals as u64);
            let vs = config.token_supply_config.spec_validate(token_supply);
            let vl = config.lamport_amount_config.spec_validate(virtual_lamport_reserves);
            let reserve_token = spec_launch_reserve_token(token_supply, config.init_bonding_curve);
            if vd is Err {
                r == Err::<(BondingCurve, u64), PumpfunError>(vd->Err_0)
            } else if vs is Err {
                r == Err::<(BondingCurve, u64), PumpfunError>(vs->Err_0)
            } else if vl is Err {
                r == Err::<(BondingCurve, u64), PumpfunError>(vl->Err_0)
            } else {
                r == Ok::<(BondingCurve, u64), PumpfunError>(
                    (
                        BondingCurve {
                            token_mint,
                            creator,
                            init_lamport: virtual_lamport_reserves,
                            reserve_lamport: virtual_lamport_reserves,
                            reserve_token: reserve_token as u64,
                            curve_limit: config.curve_limit,
                            is_completed: false,
                        },
                        (token_supply - reserve_token) as u64,
                    ),
                )
            }
        }),
{
    match config.token_decimals_config.validate(decimals as u64) {
        Ok(_) => {},
        Err(e) => {
            return Err(e);
        },
    }
    match config.token_supply_config.validate(token_supply) {
        Ok(_) => {},
        Err(e) => {
            return Err(e);
        },
    }
    match config.lamport_amount_config.validate(virtual_lamport_reserves) {
        Ok(_) => {},
        Err(e) => {
            return Err(e);
        },
    }
    proof {
        lemma_mul_div_le(token_supply as int, config.init_bonding_curve as int, 100);
        lemma_mul_upper_bound(token_supply as int, u64::MAX as int, config.init_bonding_curve as int, 100);
    }
    let reserve_token = ((token_supply as u128) * (config.init_bonding_curve as u128) / 100) as u64;
    let team_share = token_supply - reserve_token;
    Ok(
        (
            BondingCurve {
                token_mint,
                creator,
                init_lamport: virtual_lamport_reserves,
                reserve_lamport: virtual_lamport_reserves,
                reserve_token,
                curve_limit: config.curve_limit,
                is_completed: false,
            },
            team_share,
        ),
    )
}

/// Authorizes draining a completed curve: only the administrator may withdraw,
/// and only once the completion latch is set. The host moves the custodial
/// balances after this decision.
pub fn withdraw(curve: &BondingCurve, config: &Config, caller: Identity) -> (r: Result<
    (),
    PumpfunError,
>)
    ensures
        caller != config.authority ==> r == Err::<(), PumpfunError>(
            PumpfunError::IncorrectAuthority,
        ),
        (caller == config.authority && !curve.is_completed) ==> r == Err::<(), PumpfunError>(
            PumpfunError::CurveNotCompleted,
        ),
        r is Ok <==> (caller == config.authority && curve.is_completed),
{
    if caller != config.authority {
        return Err(PumpfunError::IncorrectAuthority);
    }
    if !curve.is_completed {
        return Err(PumpfunError::CurveNotCompleted);
    }
    Ok(())
}

} // verus!
