use vstd::prelude::*;

verus! {

/// The house edge in basis points: the payout is scaled by
/// `10000 - HOUSE_EDGE` before dividing by the chosen roll.
pub const HOUSE_EDGE: u64 = 150;

/// The smallest stake a bet may carry.
pub const MINIMUM_BET: u64 = 10000000;

/// Failure modes of the betting rules.
#[derive(Clone, Copy, Debug, PartialEq, Eq, Structural)]
pub enum DiceError {
    /// The chosen roll is above the playable range.
    MaximumRoll,
    /// The chosen roll is below the playable range.
    MinimumRoll,
    /// The stake is below the minimum bet.
    MinimumBet,
    /// The refund timeout has not been reached yet.
    TimeoutNotReached,
    /// A checked arithmetic step overflowed its numeric range.
    Overflow,
}

/// One open bet: `player` stakes `amount` that a roll of d100 lands on
/// or under `roll`.
pub struct Bet {
    /// The principal that placed the bet.
    pub player: u64,
    /// Distinguishes bets placed by the same player.
    pub seed: u128,
    /// The slot at which the bet was placed; refunds open 1000 slots
    /// later.
    pub slot: u64,
    /// The chosen threshold, between 2 and 96.
    pub roll: u8,
    /// The staked amount.
    pub amount: u64,
    /// Derivation parameter for the bet's account.
    pub bump: u8,
}

/// The winning payout for a bet of `amount` on threshold `roll`:
/// `amount * (10000 - HOUSE_EDGE) / roll / 100`, rounded down at each
/// division.
pub open spec fn spec_payout(amount: int, roll: int) -> int {
    amount * (10000 - HOUSE_EDGE) / roll / 100
}

/// Places a bet: validates the threshold and the stake and builds the
/// bet record.  The threshold must leave the house its edge (at most
/// 96) and the player a chance (at least 2).
pub fn place_bet(player: u64, seed: u128, roll: u8, amount: u64, slot: u64, bump: u8) -> (r:
    Result<Bet, DiceError>)
    ensures
        (r == Err::<Bet, DiceError>(DiceError::MaximumRoll) <==> roll > 96),
        (r == Err::<Bet, DiceError>(DiceError::MinimumRoll) <==> roll <= 96 && roll < 2),
        (r == Err::<Bet, DiceError>(DiceError::MinimumBet) <==> 2 <= roll <= 96 && amount
            < MINIMUM_BET),
        (r is Ok <==> 2 <= roll <= 96 && amount >= MINIMUM_BET),
        r matches Ok(bet) ==> bet == (Bet { player, seed, slot, roll, amount, bump }),
{
    if roll > 96 {
        return Err(DiceError::MaximumRoll);
    }
    if roll < 2 {
        return Err(DiceError::MinimumRoll);
    }
    if amount < MINIMUM_BET {
        return Err(DiceError::MinimumBet);
    }
    Ok(Bet { player, seed, slot, roll, amount, bump })
}

/// Resolves a bet against a 128-bit random value drawn by the house:
/// the value is reduced to a roll of 1 to 100, and the bet wins if the
/// roll does not exceed the bet's threshold.  Returns the payout owed
/// to the player, or `None` for a losing roll.  A winning payout too
/// large for 64 bits fails with `Overflow`.
pub fn resolve_bet(roll: u8, amount: u64, random: u128) -> (r: Result<Option<u64>, DiceError>)
    ensures
        ({
            let random_roll = random % 100 + 1;
            &&& (r matches Ok(payout) ==> {
                &&& (payout is Some <==> random_roll <= roll)
                &&& (payout matches Some(p) ==> p == spec_payout(amount as int, roll as int))
            })
            &&& (r is Err <==> r == Err::<Option<u64>, DiceError>(DiceError::Overflow)
                && random_roll <= roll && spec_payout(amount as int, roll as int) > u64::MAX)
        }),
{
    let random_roll = ((random % 100) + 1) as u8;
    if random_roll > roll {
        return Ok(None);
    }
    let scaled = match (amount as u128).checked_mul((10000 - HOUSE_EDGE) as u128) {
        Some(v) => v,
        None => { return Err(DiceError::Overflow) },
    };
    let per_roll = match scaled.checked_div(roll as u128) {
        Some(v) => v,
        None => { return Err(DiceError::Overflow) },
    };
    let payout = per_roll / 100;
    if payout > u64::MAX as u128 {
        return Err(DiceError::Overflow);
    }
    Ok(Some(payout as u64))
}

/// Refunds a timed-out bet: once more than 1000 slots have passed
/// since the bet was placed, the stake goes back to the player.
/// Returns the amount to refund.  The current slot never precedes the
/// bet's slot.
pub fn refund_bet(bet: &Bet, now_slot: u64) -> (r: Result<u64, DiceError>)
    requires
        now_slot >= bet.slot,
    ensures
        (r is Ok <==> now_slot - bet.slot > 1000),
        r matches Ok(refund) ==> refund == bet.amount,
        r is Err ==> r == Err::<u64, DiceError>(DiceError::TimeoutNotReached),
{
    if now_slot - bet.slot > 1000 {
        Ok(bet.amount)
    } else {
        Err(DiceError::TimeoutNotReached)
    }
}

} // verus!
