//! The arithmetic of the pricing engine: the constant-product quote, the
//! basis-point fee, and the bounds that keep every quantity inside 64 bits.

use vstd::prelude::*;
use vstd::arithmetic::div_mod::{
    lemma_div_is_ordered, lemma_div_multiples_vanish, lemma_div_plus_one, lemma_div_pos_is_pos,
    lemma_fundamental_div_mod, lemma_hoist_over_denominator, lemma_mod_division_less_than_divisor,
    lemma_multiply_divide_le, lemma_multiply_divide_lt,
};
use vstd::arithmetic::mul::{
    lemma_mul_inequality, lemma_mul_is_commutative, lemma_mul_is_distributive_add,
    lemma_mul_is_distributive_add_other_way, lemma_mul_is_distributive_sub, lemma_mul_nonnegative,
    lemma_mul_strictly_positive,
};

verus! {

/// The basis-point denominator: fee rates are parts of ten thousand.
pub const FEE_BASIS_POINTS: u128 = 10000;

/// A basis-point fee: `x * bps / 10000`, floor division.
pub open spec fn spec_fee_bps(x: int, bps: int) -> int {
    x * bps / 10000
}

/// The constant-product quote: paying `amount_in` into the side of the pool
/// holding `reserve_in` yields `reserve_out * amount_in / (reserve_in + amount_in)`
/// of the other side, floor division.
pub open spec fn spec_curve_out(reserve_out: int, reserve_in: int, amount_in: int) -> int {
    reserve_out * amount_in / (reserve_in + amount_in)
}

/// `x * y / z` lies between `0` and `x` whenever `y <= z`.
pub proof fn lemma_mul_div_le(x: int, y: int, z: int)
    requires
        0 <= x,
        0 <= y <= z,
        0 < z,
    ensures
        0 <= x * y / z <= x,
{
    lemma_mul_nonnegative(x, y);
    lemma_div_pos_is_pos(x * y, z);
    lemma_mul_inequality(y, z, x);
    lemma_mul_is_commutative(y, x);
    lemma_mul_is_commutative(z, x);
    lemma_div_is_ordered(x * y, x * z, z);
    lemma_mul_is_commutative(x, z);
    lemma_div_multiples_vanish(x, z);
}

/// A basis-point fee of at most ten thousand basis points never exceeds the
/// amount it is charged on.
pub proof fn lemma_fee_bps_le(x: int, bps: int)
    requires
        0 <= x,
        0 <= bps <= 10000,
    ensures
        0 <= spec_fee_bps(x, bps) <= x,
{
    lemma_mul_div_le(x, bps, 10000);
}

/// The constant-product quote is strictly smaller than the reserve it is paid
/// from, provided both reserves are populated.
pub proof fn lemma_curve_out_bounds(reserve_out: int, reserve_in: int, amount_in: int)
    requires
        1 <= reserve_out,
        1 <= reserve_in,
        0 <= amount_in,
    ensures
        0 <= spec_curve_out(reserve_out, reserve_in, amount_in) < reserve_out,
{
    let num = reserve_out * amount_in;
    let den = reserve_in + amount_in;
    lemma_mul_nonnegative(reserve_out, amount_in);
    lemma_div_pos_is_pos(num, den);
    assert(den * reserve_out == reserve_in * reserve_out + amount_in * reserve_out) by {
        lemma_mul_is_distributive_add_other_way(reserve_out, reserve_in, amount_in);
    }
    lemma_mul_strictly_positive(reserve_in, reserve_out);
    lemma_mul_is_commutative(reserve_out, amount_in);
    lemma_multiply_divide_lt(num, den, reserve_out);
}

/// Floor division distributes over a sum with a loss of at most the divisor:
/// the two separate quotients never exceed the quotient of the sum.
pub proof fn lemma_div_sum_le(a: int, b: int, d: int)
    requires
        0 <= a,
        0 <= b,
        0 < d,
    ensures
        a / d + b / d <= (a + b) / d,
{
    lemma_fundamental_div_mod(a, d);
    lemma_fundamental_div_mod(b, d);
    lemma_mod_division_less_than_divisor(a, d);
    lemma_mod_division_less_than_divisor(b, d);
    lemma_mul_is_distributive_add(d, a / d, b / d);
    lemma_div_pos_is_pos(a, d);
    lemma_div_pos_is_pos(b, d);
    lemma_mul_is_commutative(d, a / d + b / d);
    lemma_div_multiples_vanish(a / d + b / d, d);
    lemma_div_is_ordered(d * (a / d + b / d), a + b, d);
}

/// The two legs of the fee split never exceed the fee they are split from,
/// provided the two shares sum to at most ten thousand basis points.
pub proof fn lemma_fee_split_le(fee: int, share_a: int, share_b: int)
    requires
        0 <= fee,
        0 <= share_a,
        0 <= share_b,
        share_a + share_b <= 10000,
    ensures
        0 <= spec_fee_bps(fee, share_a) + spec_fee_bps(fee, share_b) <= fee,
{
    lemma_mul_nonnegative(fee, share_a);
    lemma_mul_nonnegative(fee, share_b);
    lemma_div_pos_is_pos(fee * share_a, 10000);
    lemma_div_pos_is_pos(fee * share_b, 10000);
    lemma_div_sum_le(fee * share_a, fee * share_b, 10000);
    lemma_mul_is_distributive_add(fee, share_a, share_b);
    lemma_mul_div_le(fee, share_a + share_b, 10000);
}

/// Composing two constant-product quotes agrees with the single quote for the
/// combined input, up to the one unit that floor division may withhold: the
/// sequential total never exceeds the combined quote and falls short of it by
/// at most one.
pub proof fn lemma_curve_out_compose(reserve_out: int, reserve_in: int, a: int, b: int)
    requires
        1 <= reserve_out,
        1 <= reserve_in,
        0 <= a,
        0 <= b,
    ensures
        ({
            let out_a = spec_curve_out(reserve_out, reserve_in, a);
            let out_b = spec_curve_out(reserve_out - out_a, reserve_in + a, b);
            let out_ab = spec_curve_out(reserve_out, reserve_in, a + b);
            out_ab - 1 <= out_a + out_b <= out_ab
        }),
{
    let d1 = reserve_in + a;
    let d = reserve_in + a + b;
    let q1 = (reserve_out * a) / d1;
    let r1 = (reserve_out * a) % d1;
    let out_a = spec_curve_out(reserve_out, reserve_in, a);
    let out_b = spec_curve_out(reserve_out - out_a, reserve_in + a, b);
    let out_ab = spec_curve_out(reserve_out, reserve_in, a + b);
    assert(out_a == q1);

    lemma_fundamental_div_mod(reserve_out * a, d1);
    lemma_mod_division_less_than_divisor(reserve_out * a, d1);
    // q1 is nonnegative and at most reserve_out
    lemma_mul_nonnegative(reserve_out, a);
    lemma_div_pos_is_pos(reserve_out * a, d1);
    lemma_mul_inequality(a, d1, reserve_out);
    lemma_mul_is_commutative(a, reserve_out);
    lemma_mul_is_commutative(d1, reserve_out);
    lemma_multiply_divide_le(reserve_out * a, d1, reserve_out);

    // out_b == (reserve_out * b - q1 * b) / d
    assert((reserve_out - q1) * b == reserve_out * b - q1 * b) by {
        lemma_mul_is_distributive_sub(b, reserve_out, q1);
        lemma_mul_is_commutative(b, reserve_out);
        lemma_mul_is_commutative(b, q1);
        lemma_mul_is_commutative(b, reserve_out - q1);
    }

    // hoist q1 over the denominator: q1 + y / d == (y + q1 * d) / d
    let y = reserve_out * b - q1 * b;
    lemma_hoist_over_denominator(y, q1, d as nat);
    assert(q1 + y / d == (y + q1 * d) / d);

    // y + q1 * d == reserve_out * b + q1 * d1
    assert(q1 * d == q1 * b + q1 * d1) by {
        lemma_mul_is_distributive_add(q1, b, d1);
    }
    assert(out_a + out_b == (reserve_out * b + q1 * d1) / d);

    // the combined numerator: reserve_out * (a + b) == q1 * d1 + r1 + reserve_out * b
    assert(reserve_out * (a + b) == reserve_out * a + reserve_out * b) by {
        lemma_mul_is_distributive_add(reserve_out, a, b);
    }
    lemma_mul_is_commutative(d1, q1);
    assert(out_ab == (reserve_out * b + q1 * d1 + r1) / d);

    let x = reserve_out * b + q1 * d1;
    // lower bound: out_a + out_b <= out_ab
    lemma_div_is_ordered(x, x + r1, d);
    // upper bound: out_ab <= out_a + out_b + 1
    lemma_div_is_ordered(x + r1, x + d, d);
    lemma_div_plus_one(x, d);
}

} // verus!
