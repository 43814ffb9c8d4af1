use vstd::prelude::*;
use crate::error::{ErrorCode, RateLimit};
use crate::identity::Pubkey;
use crate::ledger::LedgerOp;
use crate::pet::{window_passed, Item, Pet, MAX_STAT};

verus! {

/// Seconds that must pass between two plays with the same pet.
pub const PLAY_COOLDOWN: i64 = 3600;

/// Happiness gained by one play, before the cap.
pub const PLAY_BOOST: u8 = 10;

/// The accounts a play touches: the pet and the identity acting as its owner.
#[derive(Clone, Copy, Debug)]
pub struct PlayWithPet {
    pub pet: Pet,
    pub owner: Pubkey,
}

/// The accounts a feeding touches.
#[derive(Clone, Copy, Debug)]
pub struct FeedPet {
    pub pet: Pet,
    /// The identity acting as the pet's owner.
    pub owner: Pubkey,
    /// The identity handing over the item.
    pub feeder: Pubkey,
    pub item: Item,
    /// Units of the item held in the feeder's ledger account.
    pub item_units: u64,
}

/// `a + b`, stopping at the top of the `u8` range.
pub open spec fn saturated(a: u8, b: u8) -> u8 {
    if a + b > 255 {
        255
    } else {
        (a + b) as u8
    }
}

/// Happiness after one play: ten more, never above the cap.
pub open spec fn played_happiness(h: u8) -> u8 {
    if h + 10 > 100 {
        100
    } else {
        (h + 10) as u8
    }
}

/// What a play does to `pet` when `caller` asks at time `now`.
pub open spec fn play_result(pet: Pet, caller: Pubkey, now: i64) -> Result<Pet, ErrorCode> {
    if caller@ != pet.owner@ {
        Err(ErrorCode::Unauthorized)
    } else if now - pet.last_interaction < 3600 {
        Err(ErrorCode::RateLimited(RateLimit::TooFrequentInteraction))
    } else {
        Ok(Pet { happiness: played_happiness(pet.happiness), last_interaction: now, ..pet })
    }
}

/// The pet after a series of play attempts, each by a caller at a time;
/// a refused attempt leaves the pet as it was.
pub open spec fn play_series(pet: Pet, calls: Seq<(Pubkey, i64)>) -> Pet
    decreases calls.len(),
{
    if calls.len() == 0 {
        pet
    } else {
        let before = play_series(pet, calls.drop_last());
        match play_result(before, calls.last().0, calls.last().1) {
            Ok(after) => after,
            Err(_) => before,
        }
    }
}

/// What feeding does to the accounts in `ctx`: the item's effects are added
/// to the pet, saturating at the top of the `u8` range, and one unit of the
/// item is used up.
pub open spec fn feed_result(ctx: FeedPet) -> Result<FeedPet, ErrorCode> {
    if ctx.item.owner@ != ctx.feeder@ {
        Err(ErrorCode::ItemOwnershipViolation)
    } else if ctx.owner@ != ctx.pet.owner@ {
        Err(ErrorCode::Unauthorized)
    } else if ctx.item_units == 0 {
        Err(ErrorCode::LedgerFailure)
    } else {
        Ok(
            FeedPet {
                pet: Pet {
                    health: saturated(ctx.pet.health, ctx.item.health_effect),
                    happiness: saturated(ctx.pet.happiness, ctx.item.happiness_effect),
                    ..ctx.pet
                },
                item_units: (ctx.item_units - 1) as u64,
                ..ctx
            },
        )
    }
}

/// Plays with the pet at time `now`: at most once an hour, by its owner only.
/// Happiness rises by ten, capped at one hundred.
pub fn play_with_pet(ctx: &mut PlayWithPet, now: i64) -> (r: Result<(), ErrorCode>)
    ensures
        final(ctx).owner == old(ctx).owner,
        match play_result(old(ctx).pet, old(ctx).owner, now) {
            Ok(p) => r is Ok && final(ctx).pet == p,
            Err(e) => r == Err::<(), ErrorCode>(e) && final(ctx).pet == old(ctx).pet,
        },
        r is Ok ==> final(ctx).pet.happiness <= 100,
{
    if ctx.owner != ctx.pet.owner {
        return Err(ErrorCode::Unauthorized);
    }
    if !window_passed(now, ctx.pet.last_interaction, PLAY_COOLDOWN) {
        return Err(ErrorCode::RateLimited(RateLimit::TooFrequentInteraction));
    }
    let raised = ctx.pet.happiness.saturating_add(PLAY_BOOST);
    ctx.pet.happiness = if raised > MAX_STAT { MAX_STAT } else { raised };
    ctx.pet.last_interaction = now;
    Ok(())
}

/// Feeds the feeder's item to the pet. The feeder must own the item and the
/// acting owner must own the pet. On success the pet's health and happiness
/// rise by the item's effects and one unit of the item is consumed; the
/// returned burn must then be carried out on the ledger for the change to
/// stand.
pub fn feed_pet(ctx: &mut FeedPet, _item_id: u64) -> (r: Result<LedgerOp, ErrorCode>)
    ensures
        match feed_result(*old(ctx)) {
            Ok(c) => r == Ok::<LedgerOp, ErrorCode>(LedgerOp::Burn { amount: 1 }) && *final(ctx) == c,
            Err(e) => r == Err::<LedgerOp, ErrorCode>(e) && *final(ctx) == *old(ctx),
        },
        old(ctx).item.owner@ != old(ctx).feeder@ ==> r == Err::<LedgerOp, ErrorCode>(
            ErrorCode::ItemOwnershipViolation,
        ) && *final(ctx) == *old(ctx),
{
    if ctx.item.owner != ctx.feeder {
        return Err(ErrorCode::ItemOwnershipViolation);
    }
    if ctx.owner != ctx.pet.owner {
        return Err(ErrorCode::Unauthorized);
    }
    if ctx.item_units == 0 {
        return Err(ErrorCode::LedgerFailure);
    }
    ctx.pet.health = ctx.pet.health.saturating_add(ctx.item.health_effect);
    ctx.pet.happiness = ctx.pet.happiness.saturating_add(ctx.item.happiness_effect);
    ctx.item_units = ctx.item_units - 1;
    Ok(LedgerOp::Burn { amount: 1 })
}

/// An accepted feeding uses up exactly one unit of the item; once the last
/// unit is gone, feeding the same item again is refused.
pub proof fn feeding_uses_up_one_unit(ctx: FeedPet)
    requires
        feed_result(ctx) is Ok,
    ensures
        feed_result(ctx)->Ok_0.item_units == ctx.item_units - 1,
        ctx.item_units == 1 ==> feed_result(feed_result(ctx)->Ok_0) == Err::<FeedPet, ErrorCode>(
            ErrorCode::LedgerFailure,
        ),
{
}

/// However many plays are attempted, by whomever and whenever, a pet whose
/// happiness starts within the scale keeps it there: never above one hundred,
/// and never below zero.
pub proof fn play_keeps_happiness_on_scale(pet: Pet, calls: Seq<(Pubkey, i64)>)
    requires
        pet.happiness <= 100,
    ensures
        0 <= play_series(pet, calls).happiness <= 100,
    decreases calls.len(),
{
    if calls.len() > 0 {
        play_keeps_happiness_on_scale(pet, calls.drop_last());
    }
}

/// A play that follows an accepted play by less than an hour is refused as
/// too frequent, and the pet stays as the first play left it.
pub proof fn second_play_within_hour_refused(pet: Pet, caller: Pubkey, t1: i64, t2: i64)
    requires
        play_result(pet, caller, t1) is Ok,
        t2 - t1 < 3600,
    ensures
        play_result(play_result(pet, caller, t1)->Ok_0, caller, t2) == Err::<Pet, ErrorCode>(
            ErrorCode::RateLimited(RateLimit::TooFrequentInteraction),
        ),
        play_series(pet, seq![(caller, t1), (caller, t2)]) == play_result(pet, caller, t1)->Ok_0,
{
    let calls = seq![(caller, t1), (caller, t2)];
    assert(calls.drop_last() =~= seq![(caller, t1)]);
    assert(calls.drop_last().drop_last() =~= Seq::<(Pubkey, i64)>::empty());
    let first = play_result(pet, caller, t1)->Ok_0;
    assert(play_series(pet, calls.drop_last().drop_last()) == pet);
    assert(play_series(pet, calls.drop_last()) == first);
}

} // verus!
