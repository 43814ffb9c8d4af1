use vstd::prelude::*;
use crate::identity::Pubkey;

verus! {

/// Upper end of the health and happiness scale reached by playing.
pub const MAX_STAT: u8 = 100;

/// The record of one pet.
#[derive(Clone, Copy, Debug)]
pub struct Pet {
    pub owner: Pubkey,
    pub health: u8,
    pub happiness: u8,
    pub coins_earned: u64,
    /// Unix time of the last play.
    pub last_interaction: i64,
    /// Unix time of the last reward claim.
    pub last_coin_earn: i64,
}

/// A single-use consumable that can be fed to a pet.
#[derive(Clone, Copy, Debug)]
pub struct Item {
    pub id: u64,
    pub owner: Pubkey,
    pub health_effect: u8,
    pub happiness_effect: u8,
    pub price: u64,
}

/// What creating a pet needs: the identity that will own it.
#[derive(Clone, Copy, Debug)]
pub struct InitializePet {
    pub owner: Pubkey,
}

/// True when at least `window` seconds separate `last` from `now`.
pub(crate) fn window_passed(now: i64, last: i64, window: i64) -> (r: bool)
    ensures
        r == (now - last >= window),
{
    (now as i128) - (last as i128) >= (window as i128)
}

/// Creates a pet for `ctx.owner` at time `now`, in full health and spirits.
pub fn initialize_pet(ctx: &InitializePet, now: i64) -> (pet: Pet)
    ensures
        pet.owner == ctx.owner,
        pet.health == 100,
        pet.happiness == 100,
        pet.coins_earned == 0,
        pet.last_interaction == now,
        pet.last_coin_earn == now,
{
    Pet {
        owner: ctx.owner,
        health: MAX_STAT,
        happiness: MAX_STAT,
        coins_earned: 0,
        last_interaction: now,
        last_coin_earn: now,
    }
}

} // verus!
