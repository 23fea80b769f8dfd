use vstd::arithmetic::div_mod::{
    lemma_div_is_ordered, lemma_div_multiples_vanish,
};
use vstd::arithmetic::mul::{
    lemma_mul_inequality, lemma_mul_is_commutative, lemma_mul_upper_bound,
};
use vstd::prelude::*;

use crate::errors::AmmError;

verus! {

/// The pro-rata share of `reserve` owed to `burn` claim tokens out of a
/// total supply of `supply`, rounded down.
pub open spec fn spec_share(reserve: int, burn: int, supply: int) -> int {
    reserve * burn / supply
}

/// A claim on at most the whole supply redeems at most the whole
/// reserve.
pub proof fn lemma_share_le_reserve(reserve: int, burn: int, supply: int)
    requires
        0 <= reserve,
        0 <= burn <= supply,
        0 < supply,
    ensures
        0 <= spec_share(reserve, burn, supply) <= reserve,
{
    lemma_mul_inequality(burn, supply, reserve);
    lemma_mul_is_commutative(reserve, burn);
    lemma_mul_is_commutative(reserve, supply);
    lemma_div_is_ordered(0, reserve * burn, supply);
    lemma_div_is_ordered(reserve * burn, reserve * supply, supply);
    lemma_div_multiples_vanish(reserve, supply);
}

/// Redeeming the whole outstanding supply returns the reserve exactly:
/// the floor in the pro-rata formula loses nothing when `burn == supply`.
pub proof fn lemma_full_redemption(reserve: int, supply: int)
    requires
        0 < supply,
    ensures
        spec_share(reserve, supply, supply) == reserve,
{
    lemma_mul_is_commutative(reserve, supply);
    lemma_div_multiples_vanish(reserve, supply);
}

/// The two-asset proportional payout for burning `burn` claim tokens
/// against reserves `reserve_x`, `reserve_y` and a total claim supply of
/// `supply`, each amount rounded down.  The computation is carried out
/// in 128-bit arithmetic, where the products cannot overflow, so the
/// pro-rata floor is exact and no fixed-precision intermediate scaling
/// is needed to counter truncation bias on small pools.  It fails with
/// `CurveError` exactly when it degenerates: the supply is zero, or
/// the claim exceeds the supply by enough that a payout would not fit
/// in 64 bits.
pub fn proportional_amounts(reserve_x: u64, reserve_y: u64, supply: u64, burn: u64) -> (r: Result<
    (u64, u64),
    AmmError,
>)
    ensures
        r is Ok <==> 0 < supply && spec_share(reserve_x as int, burn as int, supply as int)
            <= u64::MAX && spec_share(reserve_y as int, burn as int, supply as int) <= u64::MAX,
        r matches Ok(amounts) ==> amounts.0 == spec_share(
            reserve_x as int,
            burn as int,
            supply as int,
        ) && amounts.1 == spec_share(reserve_y as int, burn as int, supply as int),
        r is Err ==> r == Err::<(u64, u64), AmmError>(AmmError::CurveError),
{
    if supply == 0 {
        return Err(AmmError::CurveError);
    }
    proof {
        lemma_mul_upper_bound(reserve_x as int, u64::MAX as int, burn as int, u64::MAX as int);
        lemma_mul_upper_bound(reserve_y as int, u64::MAX as int, burn as int, u64::MAX as int);
    }
    let wide_x = (reserve_x as u128) * (burn as u128);
    let wide_y = (reserve_y as u128) * (burn as u128);
    let share_x = wide_x / (supply as u128);
    let share_y = wide_y / (supply as u128);
    if share_x > u64::MAX as u128 || share_y > u64::MAX as u128 {
        return Err(AmmError::CurveError);
    }
    Ok((share_x as u64, share_y as u64))
}

} // verus!
