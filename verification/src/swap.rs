use vstd::arithmetic::div_mod::{
    lemma_div_is_ordered, lemma_div_is_ordered_by_denominator, lemma_div_multiples_vanish,
    lemma_fundamental_div_mod, lemma_hoist_over_denominator, lemma_multiply_divide_lt,
};
use vstd::arithmetic::mul::{
    lemma_mul_inequality, lemma_mul_is_commutative, lemma_mul_is_distributive_add_other_way,
    lemma_mul_nonnegative, lemma_mul_strict_inequality,
};
use vstd::prelude::*;

use crate::errors::AmmError;
use crate::pool::Pool;

verus! {

/// The fee retained from a supplied amount: `amount * fee_bps / 10000`,
/// rounded down.
pub open spec fn spec_fee(amount: int, fee_bps: int) -> int {
    amount * fee_bps / 10000
}

/// The part of the supplied amount that enters the pricing formula.
pub open spec fn spec_net_in(amount: int, fee_bps: int) -> int {
    amount - spec_fee(amount, fee_bps)
}

/// The reserve of the received asset after a trade prices against the
/// constant product `reserve_in * reserve_out`:
/// `floor(k / (reserve_in + net_in))`.
pub open spec fn spec_new_reserve_out(reserve_in: int, reserve_out: int, net_in: int) -> int {
    reserve_in * reserve_out / (reserve_in + net_in)
}

/// The amount paid out for supplying `amount` against reserves
/// `reserve_in`, `reserve_out` at fee rate `fee_bps`.
pub open spec fn spec_amount_out(reserve_in: int, reserve_out: int, amount: int, fee_bps: int) -> int {
    reserve_out - spec_new_reserve_out(reserve_in, reserve_out, spec_net_in(amount, fee_bps))
}

/// Whether one of the 64-bit pricing steps overflows: the fee
/// numerator, the constant product, or the grown input reserve.
pub open spec fn spec_pricing_overflows(reserve_in: int, reserve_out: int, amount: int, fee_bps: int) -> bool {
    ||| amount * fee_bps > u64::MAX
    ||| reserve_in * reserve_out > u64::MAX
    ||| reserve_in + spec_net_in(amount, fee_bps) > u64::MAX
}

/// The fee never swallows the whole amount: for a positive amount and
/// a fee rate below 100%, `0 <= fee < amount`, so the net input is
/// positive.
pub proof fn lemma_fee_lt_amount(amount: int, fee_bps: int)
    requires
        0 < amount,
        0 <= fee_bps < 10000,
    ensures
        0 <= spec_fee(amount, fee_bps) < amount,
        0 < spec_net_in(amount, fee_bps) <= amount,
{
    lemma_mul_inequality(0, fee_bps, amount);
    lemma_mul_is_commutative(fee_bps, amount);
    lemma_div_is_ordered(0, amount * fee_bps, 10000);
    lemma_mul_strict_inequality(fee_bps, 10000, amount);
    lemma_mul_is_commutative(10000, amount);
    lemma_multiply_divide_lt(amount * fee_bps, 10000, amount);
}

/// `spec_amount_out` with the net input already computed.
pub open spec fn spec_amount_out_of(reserve_in: int, reserve_out: int, net_in: int) -> int {
    reserve_out - spec_new_reserve_out(reserve_in, reserve_out, net_in)
}

/// The priced-down reserve never exceeds the reserve it came from:
/// `floor(k / (reserve_in + net_in)) <= reserve_out`, so the payout is
/// non-negative.
pub proof fn lemma_new_reserve_out_le(reserve_in: int, reserve_out: int, net_in: int)
    requires
        0 <= reserve_in,
        0 <= reserve_out,
        0 < net_in,
    ensures
        0 <= spec_new_reserve_out(reserve_in, reserve_out, net_in) <= reserve_out,
        0 <= spec_amount_out_of(reserve_in, reserve_out, net_in) <= reserve_out,
{
    let d = reserve_in + net_in;
    lemma_mul_inequality(0, reserve_out, reserve_in);
    lemma_mul_is_commutative(reserve_out, reserve_in);
    lemma_div_is_ordered(0, reserve_in * reserve_out, d);
    lemma_mul_inequality(reserve_in, d, reserve_out);
    lemma_div_is_ordered(reserve_in * reserve_out, d * reserve_out, d);
    lemma_div_multiples_vanish(reserve_out, d);
}

/// How a swap moves the constant product, exactly.  Writing `k` for
/// the pre-trade product, `d` for the input reserve grown by the net
/// amount, `q = k / d` for the priced-down output reserve and `fee`
/// for the retained fee, the post-trade product of the reserves is
/// `k - k % d + fee * q`: the division's rounding loss `k % d` works
/// against the pool (it is paid out to the trader), while the retained
/// fee works for it.
pub proof fn lemma_swap_product(reserve_in: int, reserve_out: int, amount: int, fee_bps: int)
    requires
        0 <= reserve_in,
        0 <= reserve_out,
        0 < amount,
        0 <= fee_bps < 10000,
    ensures
        ({
            let k = reserve_in * reserve_out;
            let d = reserve_in + spec_net_in(amount, fee_bps);
            let q = k / d;
            let out = spec_amount_out(reserve_in, reserve_out, amount, fee_bps);
            (reserve_in + amount) * (reserve_out - out) == k - k % d + spec_fee(amount, fee_bps)
                * q
        }),
{
    let fee = spec_fee(amount, fee_bps);
    let k = reserve_in * reserve_out;
    let d = reserve_in + spec_net_in(amount, fee_bps);
    let q = k / d;
    lemma_fee_lt_amount(amount, fee_bps);
    assert(reserve_in + amount == d + fee);
    assert((d + fee) * q == d * q + fee * q) by {
        lemma_mul_is_distributive_add_other_way(q, d, fee);
    }
    assert(d * q == k - k % d) by {
        lemma_fundamental_div_mod(k, d);
    }
}

/// The constant product does not decrease across a swap whenever the
/// retained fee outweighs the pricing division's rounding loss, and
/// strictly increases whenever it outweighs it strictly.  This is the
/// precise boundary: by `lemma_swap_product` the product moves by
/// exactly `fee * q - k % d`, so on inputs where that is negative —
/// possible even with a nonzero fee rate, e.g. reserves 1 and 19999
/// with `amount = 10000` at 1 bps — the product shrinks.
pub proof fn lemma_swap_product_non_decreasing(
    reserve_in: int,
    reserve_out: int,
    amount: int,
    fee_bps: int,
)
    requires
        0 <= reserve_in,
        0 <= reserve_out,
        0 < amount,
        0 <= fee_bps < 10000,
        ({
            let k = reserve_in * reserve_out;
            let d = reserve_in + spec_net_in(amount, fee_bps);
            spec_fee(amount, fee_bps) * (k / d) >= k % d
        }),
    ensures
        ({
            let k = reserve_in * reserve_out;
            let d = reserve_in + spec_net_in(amount, fee_bps);
            let out = spec_amount_out(reserve_in, reserve_out, amount, fee_bps);
            &&& (reserve_in + amount) * (reserve_out - out) >= k
            &&& spec_fee(amount, fee_bps) * (k / d) > k % d ==> (reserve_in + amount) * (
            reserve_out - out) > k
        }),
{
    lemma_swap_product(reserve_in, reserve_out, amount, fee_bps);
}

/// The payout is non-decreasing in the supplied amount, for fixed
/// reserves and fee rate.
pub proof fn lemma_amount_out_monotonic(
    reserve_in: int,
    reserve_out: int,
    amount1: int,
    amount2: int,
    fee_bps: int,
)
    requires
        0 <= reserve_in,
        0 <= reserve_out,
        0 < amount1 <= amount2,
        0 <= fee_bps < 10000,
    ensures
        spec_amount_out(reserve_in, reserve_out, amount1, fee_bps) <= spec_amount_out(
            reserve_in,
            reserve_out,
            amount2,
            fee_bps,
        ),
{
    let net1 = spec_net_in(amount1, fee_bps);
    let net2 = spec_net_in(amount2, fee_bps);
    assert(net1 <= net2) by {
        lemma_fee_step_bounded(amount1, amount2, fee_bps);
    }
    lemma_fee_lt_amount(amount1, fee_bps);
    let k = reserve_in * reserve_out;
    assert(0 <= k) by {
        lemma_mul_nonnegative(reserve_in, reserve_out);
    }
    lemma_div_is_ordered_by_denominator(k, reserve_in + net1, reserve_in + net2);
}

/// Growing the supplied amount grows the fee by no more than the
/// growth itself, so the net input is monotone in the amount.
proof fn lemma_fee_step_bounded(amount1: int, amount2: int, fee_bps: int)
    requires
        0 <= amount1 <= amount2,
        0 <= fee_bps < 10000,
    ensures
        spec_fee(amount2, fee_bps) <= spec_fee(amount1, fee_bps) + (amount2 - amount1),
{
    assert(amount2 * fee_bps == amount1 * fee_bps + (amount2 - amount1) * fee_bps) by {
        lemma_mul_is_distributive_add_other_way(fee_bps, amount1, amount2 - amount1);
    }
    assert((amount2 - amount1) * fee_bps <= (amount2 - amount1) * 10000) by {
        lemma_mul_left_inequality_or_zero(amount2 - amount1, fee_bps, 10000);
    }
    lemma_div_is_ordered(
        amount2 * fee_bps,
        amount1 * fee_bps + (amount2 - amount1) * 10000,
        10000,
    );
    lemma_hoist_over_denominator(amount1 * fee_bps, amount2 - amount1, 10000nat);
}

/// `x * y <= x * z` for `0 <= x` and `y <= z`; the vstd left-hand
/// inequality asks for a strictly positive multiplier.
proof fn lemma_mul_left_inequality_or_zero(x: int, y: int, z: int)
    requires
        0 <= x,
        y <= z,
    ensures
        x * y <= x * z,
{
    lemma_mul_is_commutative(x, y);
    lemma_mul_is_commutative(x, z);
    lemma_mul_inequality(y, z, x);
}

/// A fee-free round trip with no rounding loss is exactly neutral:
/// if the grown input reserve divides the constant product evenly,
/// then swapping `amount` of one asset for the other and swapping the
/// whole payout straight back returns exactly `amount`.  The payout of
/// the first leg is positive, so the second leg is a valid swap.  When
/// the division does leave a remainder, the engine's floor rounds in
/// the trader's favor and the return leg pays out more than `amount`
/// (reserves 10 and 10 with `amount = 3` come back as 4), so exact
/// divisibility is also necessary for neutrality.
pub proof fn lemma_zero_fee_round_trip(reserve_in: int, reserve_out: int, amount: int)
    requires
        0 < reserve_in,
        0 < reserve_out,
        0 < amount,
        (reserve_in * reserve_out) % (reserve_in + amount) == 0,
    ensures
        ({
            let out1 = spec_amount_out(reserve_in, reserve_out, amount, 0);
            &&& 0 < out1
            &&& spec_amount_out(reserve_out - out1, reserve_in + amount, out1, 0) == amount
        }),
{
    let k = reserve_in * reserve_out;
    let d = reserve_in + amount;
    let q = k / d;
    assert(spec_net_in(amount, 0) == amount);
    assert(d * q == k) by {
        lemma_fundamental_div_mod(k, d);
    }
    assert(q < reserve_out) by {
        lemma_mul_strict_inequality(reserve_in, d, reserve_out);
        lemma_mul_is_commutative(d, reserve_out);
        lemma_multiply_divide_lt(k, d, reserve_out);
    }
    let out1 = spec_amount_out(reserve_in, reserve_out, amount, 0);
    assert(out1 == reserve_out - q);
    assert(spec_net_in(out1, 0) == out1);
    assert(q + out1 == reserve_out);
    assert(q * d == k) by {
        lemma_mul_is_commutative(q, d);
    }
    assert(k / reserve_out == reserve_in) by {
        lemma_mul_is_commutative(reserve_in, reserve_out);
        lemma_div_multiples_vanish(reserve_in, reserve_out);
    }
    assert(spec_amount_out(reserve_out - out1, reserve_in + amount, out1, 0) == d - q * d
        / reserve_out);
}

impl Pool {
    /// Swaps `amount` of the supplied asset (`is_x` selects which) for
    /// the other asset, paying out at least `min` or failing.
    ///
    /// The full `amount`, fee included, enters the supplied-asset
    /// reserve, while only the net amount is used in pricing: the fee
    /// stays in the pool and accrues pro rata to all claim holders.
    /// On any failure the pool is left exactly as it was.
    pub fn swap(&mut self, is_x: bool, amount: u64, min: u64) -> (r: Result<u64, AmmError>)
        requires
            old(self).wf(),
        ensures
            final(self).wf(),
            ({
                let pre = *old(self);
                let rin = pre.reserve_in(is_x);
                let rout = pre.reserve_out(is_x);
                let fee_bps = pre.config.fee as int;
                let out = spec_amount_out(rin, rout, amount as int, fee_bps);
                let pricing_ovf = spec_pricing_overflows(rin, rout, amount as int, fee_bps);
                let settle_ovf = rin + amount > u64::MAX;
                &&& (r == Err::<u64, AmmError>(AmmError::PoolLocked) <==> pre.config.locked)
                &&& (r == Err::<u64, AmmError>(AmmError::InvalidAmount) <==> !pre.config.locked
                    && amount == 0)
                &&& (r == Err::<u64, AmmError>(AmmError::Overflow) <==> !pre.config.locked
                    && amount != 0 && (pricing_ovf || (out >= min && settle_ovf)))
                &&& (r == Err::<u64, AmmError>(AmmError::SlippageExceeded) <==> !pre.config.locked
                    && amount != 0 && !pricing_ovf && out < min)
                &&& (r is Ok <==> !pre.config.locked && amount != 0 && !pricing_ovf && out >= min
                    && !settle_ovf)
                &&& (r matches Ok(paid) ==> {
                    &&& paid == out
                    &&& final(self).config == pre.config
                    &&& final(self).lp_supply == pre.lp_supply
                    &&& final(self).reserve_in(is_x) == rin + amount
                    &&& final(self).reserve_out(is_x) == rout - out
                })
                &&& (r is Err ==> *final(self) == pre)
            }),
    {
        if self.config.locked {
            return Err(AmmError::PoolLocked);
        }
        if amount == 0 {
            return Err(AmmError::InvalidAmount);
        }
        let fee_bps = self.config.fee as u64;
        let scaled = match amount.checked_mul(fee_bps) {
            Some(v) => v,
            None => { return Err(AmmError::Overflow) },
        };
        let fee = scaled / 10000;
        proof {
            lemma_fee_lt_amount(amount as int, fee_bps as int);
        }
        let net = amount - fee;
        let (rin, rout) = if is_x {
            (self.reserve_x, self.reserve_y)
        } else {
            (self.reserve_y, self.reserve_x)
        };
        let k = match rin.checked_mul(rout) {
            Some(v) => v,
            None => { return Err(AmmError::Overflow) },
        };
        let new_rin = match rin.checked_add(net) {
            Some(v) => v,
            None => { return Err(AmmError::Overflow) },
        };
        let new_rout = k / new_rin;
        proof {
            lemma_new_reserve_out_le(rin as int, rout as int, net as int);
        }
        let out = rout - new_rout;
        if out < min {
            return Err(AmmError::SlippageExceeded);
        }
        let settled_in = match rin.checked_add(amount) {
            Some(v) => v,
            None => { return Err(AmmError::Overflow) },
        };
        if is_x {
            self.reserve_x = settled_in;
            self.reserve_y = new_rout;
        } else {
            self.reserve_y = settled_in;
            self.reserve_x = new_rout;
        }
        Ok(out)
    }
}

} // verus!
