use vstd::prelude::*;
use crate::error::{ErrorCode, RateLimit};
use crate::identity::Pubkey;
use crate::ledger::LedgerOp;
use crate::pet::{window_passed, Pet};

verus! {

/// Seconds that must pass between two reward claims for the same pet.
pub const COIN_COOLDOWN: i64 = 86400;

/// Points of combined health and happiness that earn one coin.
pub const POINTS_PER_COIN: u64 = 20;

/// The accounts a reward claim touches: the pet and the identity acting as
/// its owner.
#[derive(Clone, Copy, Debug)]
pub struct EarnCoins {
    pub pet: Pet,
    pub owner: Pubkey,
}

/// Coins a claim pays out for a pet in the given condition.
pub open spec fn reward(health: u8, happiness: u8) -> int {
    (health + happiness) / 20
}

/// Coins a claim pays out for a pet with the given health and happiness.
pub fn coins_for(health: u8, happiness: u8) -> (r: u64)
    ensures
        r == reward(health, happiness),
        r <= 25,
{
    (health as u64 + happiness as u64) / POINTS_PER_COIN
}

/// True when a claim's payout would still fit in the pet's tally.
pub fn claim_fits(pet: &Pet) -> (r: bool)
    ensures
        r == (pet.coins_earned + reward(pet.health, pet.happiness) <= u64::MAX),
{
    pet.coins_earned <= u64::MAX - coins_for(pet.health, pet.happiness)
}

/// What a reward claim by `caller` at time `now` does to `pet`.
pub open spec fn earn_result(pet: Pet, caller: Pubkey, now: i64) -> Result<Pet, ErrorCode> {
    if caller@ != pet.owner@ {
        Err(ErrorCode::Unauthorized)
    } else if now - pet.last_coin_earn < 86400 {
        Err(ErrorCode::RateLimited(RateLimit::TooFrequentCoinEarn))
    } else {
        Ok(
            Pet {
                coins_earned: (pet.coins_earned + reward(pet.health, pet.happiness)) as u64,
                last_coin_earn: now,
                ..pet
            },
        )
    }
}

/// Claims the daily reward at time `now`: at most once a day, by the owner
/// only. One coin is paid for every twenty points of health plus happiness;
/// the coins are added to the pet's tally, and the returned mint must then be
/// carried out on the ledger for the change to stand.
pub fn earn_coins(ctx: &mut EarnCoins, now: i64) -> (r: Result<LedgerOp, ErrorCode>)
    requires
        old(ctx).pet.coins_earned + reward(old(ctx).pet.health, old(ctx).pet.happiness)
            <= u64::MAX,
    ensures
        final(ctx).owner == old(ctx).owner,
        match earn_result(old(ctx).pet, old(ctx).owner, now) {
            Ok(p) => r == Ok::<LedgerOp, ErrorCode>(
                LedgerOp::MintTo { amount: reward(old(ctx).pet.health, old(ctx).pet.happiness) as u64 },
            ) && final(ctx).pet == p,
            Err(e) => r == Err::<LedgerOp, ErrorCode>(e) && final(ctx).pet == old(ctx).pet,
        },
        final(ctx).pet.coins_earned >= old(ctx).pet.coins_earned,
{
    if ctx.owner != ctx.pet.owner {
        return Err(ErrorCode::Unauthorized);
    }
    if !window_passed(now, ctx.pet.last_coin_earn, COIN_COOLDOWN) {
        return Err(ErrorCode::RateLimited(RateLimit::TooFrequentCoinEarn));
    }
    let coins = coins_for(ctx.pet.health, ctx.pet.happiness);
    ctx.pet.coins_earned = ctx.pet.coins_earned + coins;
    ctx.pet.last_coin_earn = now;
    Ok(LedgerOp::MintTo { amount: coins })
}

/// A claim that follows an accepted claim by less than a day is refused as
/// too frequent. Only the accepted claim adds to the tally, by exactly one
/// coin per twenty points of health plus happiness.
pub proof fn second_claim_within_day_refused(pet: Pet, caller: Pubkey, t1: i64, t2: i64)
    requires
        earn_result(pet, caller, t1) is Ok,
        t2 - t1 < 86400,
        pet.coins_earned + reward(pet.health, pet.happiness) <= u64::MAX,
    ensures
        earn_result(earn_result(pet, caller, t1)->Ok_0, caller, t2) == Err::<Pet, ErrorCode>(
            ErrorCode::RateLimited(RateLimit::TooFrequentCoinEarn),
        ),
        earn_result(pet, caller, t1)->Ok_0.coins_earned == pet.coins_earned + (pet.health
            + pet.happiness) / 20,
{
}

} // verus!
