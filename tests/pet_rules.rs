use virtual_pet::{
    claim_fits, coins_for, earn_coins, feed_pet, initialize_pet, play_with_pet, request_ownership, respond_to_request,
    EarnCoins, ErrorCode, FeedPet, InitializePet, Item, LedgerOp, OwnershipStatus, Pet,
    PlayWithPet, Pubkey, RateLimit, RequestOwnership, RespondToRequest,
};

fn key(b: u8) -> Pubkey {
    Pubkey::new([b; 32])
}

fn pet(owner: Pubkey, health: u8, happiness: u8) -> Pet {
    Pet { owner, health, happiness, coins_earned: 0, last_interaction: 0, last_coin_earn: 0 }
}

fn item(owner: Pubkey, health_effect: u8, happiness_effect: u8) -> Item {
    Item { id: 9, owner, health_effect, happiness_effect, price: 5 }
}

#[test]
fn initialize_pet_starts_full() {
    let p = initialize_pet(&InitializePet { owner: key(1) }, 1_000);
    assert_eq!(p.owner, key(1));
    assert_eq!(p.health, 100);
    assert_eq!(p.happiness, 100);
    assert_eq!(p.coins_earned, 0);
    assert_eq!(p.last_interaction, 1_000);
    assert_eq!(p.last_coin_earn, 1_000);
}

#[test]
fn earn_coins_scenario_eighty_sixty() {
    let mut ctx = EarnCoins { pet: pet(key(1), 80, 60), owner: key(1) };
    assert_eq!(earn_coins(&mut ctx, 86_400), Ok(LedgerOp::MintTo { amount: 7 }));
    assert_eq!(ctx.pet.coins_earned, 7);
    assert_eq!(ctx.pet.last_coin_earn, 86_400);
    assert_eq!(
        earn_coins(&mut ctx, 86_400 + 86_399),
        Err(ErrorCode::RateLimited(RateLimit::TooFrequentCoinEarn))
    );
    assert_eq!(ctx.pet.coins_earned, 7);
    assert_eq!(ctx.pet.last_coin_earn, 86_400);
}

#[test]
fn earn_coins_again_after_a_day() {
    let mut ctx = EarnCoins { pet: pet(key(1), 100, 100), owner: key(1) };
    assert_eq!(earn_coins(&mut ctx, 86_400), Ok(LedgerOp::MintTo { amount: 10 }));
    assert_eq!(earn_coins(&mut ctx, 2 * 86_400), Ok(LedgerOp::MintTo { amount: 10 }));
    assert_eq!(ctx.pet.coins_earned, 20);
}

#[test]
fn earn_coins_rounds_down_and_pays_zero() {
    let mut ctx = EarnCoins { pet: pet(key(1), 10, 9), owner: key(1) };
    assert_eq!(earn_coins(&mut ctx, 86_400), Ok(LedgerOp::MintTo { amount: 0 }));
    assert_eq!(ctx.pet.coins_earned, 0);
    assert_eq!(ctx.pet.last_coin_earn, 86_400);
}

#[test]
fn earn_coins_by_stranger_unauthorized() {
    let mut ctx = EarnCoins { pet: pet(key(1), 80, 60), owner: key(2) };
    assert_eq!(earn_coins(&mut ctx, 86_400), Err(ErrorCode::Unauthorized));
    assert_eq!(ctx.pet.coins_earned, 0);
    assert_eq!(ctx.pet.last_coin_earn, 0);
}

#[test]
fn feed_pet_burns_one_unit_then_fails() {
    let mut ctx = FeedPet {
        pet: pet(key(1), 50, 40),
        owner: key(1),
        feeder: key(1),
        item: item(key(1), 20, 30),
        item_units: 1,
    };
    assert_eq!(feed_pet(&mut ctx, 9), Ok(LedgerOp::Burn { amount: 1 }));
    assert_eq!(ctx.pet.health, 70);
    assert_eq!(ctx.pet.happiness, 70);
    assert_eq!(ctx.item_units, 0);
    assert_eq!(feed_pet(&mut ctx, 9), Err(ErrorCode::LedgerFailure));
    assert_eq!(ctx.pet.health, 70);
    assert_eq!(ctx.pet.happiness, 70);
    assert_eq!(ctx.item_units, 0);
}

#[test]
fn feed_pet_with_foreign_item_refused() {
    let mut ctx = FeedPet {
        pet: pet(key(1), 50, 40),
        owner: key(1),
        feeder: key(1),
        item: item(key(3), 20, 30),
        item_units: 4,
    };
    assert_eq!(feed_pet(&mut ctx, 9), Err(ErrorCode::ItemOwnershipViolation));
    assert_eq!(ctx.pet.health, 50);
    assert_eq!(ctx.pet.happiness, 40);
    assert_eq!(ctx.item_units, 4);
}

#[test]
fn feed_pet_saturates_without_cap() {
    let mut ctx = FeedPet {
        pet: pet(key(1), 95, 250),
        owner: key(1),
        feeder: key(2),
        item: item(key(2), 20, 30),
        item_units: 3,
    };
    assert_eq!(feed_pet(&mut ctx, 9), Ok(LedgerOp::Burn { amount: 1 }));
    assert_eq!(ctx.pet.health, 115);
    assert_eq!(ctx.pet.happiness, 255);
    assert_eq!(ctx.item_units, 2);
}

#[test]
fn feed_pet_for_wrong_owner_unauthorized() {
    let mut ctx = FeedPet {
        pet: pet(key(1), 50, 40),
        owner: key(2),
        feeder: key(2),
        item: item(key(2), 20, 30),
        item_units: 1,
    };
    assert_eq!(feed_pet(&mut ctx, 9), Err(ErrorCode::Unauthorized));
    assert_eq!(ctx.pet.health, 50);
    assert_eq!(ctx.item_units, 1);
}

#[test]
fn play_with_pet_twice_within_hour() {
    let mut ctx = PlayWithPet { pet: pet(key(1), 100, 50), owner: key(1) };
    assert_eq!(play_with_pet(&mut ctx, 3_600), Ok(()));
    assert_eq!(ctx.pet.happiness, 60);
    assert_eq!(ctx.pet.last_interaction, 3_600);
    assert_eq!(
        play_with_pet(&mut ctx, 3_600 + 3_599),
        Err(ErrorCode::RateLimited(RateLimit::TooFrequentInteraction))
    );
    assert_eq!(ctx.pet.happiness, 60);
    assert_eq!(ctx.pet.last_interaction, 3_600);
    assert_eq!(play_with_pet(&mut ctx, 2 * 3_600), Ok(()));
    assert_eq!(ctx.pet.happiness, 70);
}

#[test]
fn play_with_pet_never_passes_hundred() {
    let mut ctx = PlayWithPet { pet: pet(key(1), 100, 0), owner: key(1) };
    let mut now: i64 = 0;
    for _ in 0..20 {
        now += 3_600;
        assert_eq!(play_with_pet(&mut ctx, now), Ok(()));
        assert!(ctx.pet.happiness <= 100);
    }
    assert_eq!(ctx.pet.happiness, 100);
}

#[test]
fn play_with_pet_caps_at_hundred() {
    let mut ctx = PlayWithPet { pet: pet(key(1), 100, 95), owner: key(1) };
    assert_eq!(play_with_pet(&mut ctx, 3_600), Ok(()));
    assert_eq!(ctx.pet.happiness, 100);
}

#[test]
fn play_with_pet_by_stranger_unauthorized() {
    let mut ctx = PlayWithPet { pet: pet(key(1), 100, 50), owner: key(2) };
    assert_eq!(play_with_pet(&mut ctx, 3_600), Err(ErrorCode::Unauthorized));
    assert_eq!(ctx.pet.happiness, 50);
}

#[test]
fn play_with_pet_extreme_times() {
    let mut ctx = PlayWithPet { pet: pet(key(1), 100, 50), owner: key(1) };
    ctx.pet.last_interaction = i64::MAX;
    assert_eq!(
        play_with_pet(&mut ctx, i64::MIN),
        Err(ErrorCode::RateLimited(RateLimit::TooFrequentInteraction))
    );
    ctx.pet.last_interaction = i64::MIN;
    assert_eq!(play_with_pet(&mut ctx, i64::MAX), Ok(()));
}

#[test]
fn request_ownership_starts_pending() {
    let r = request_ownership(&RequestOwnership { from: key(1), to: key(2) });
    assert_eq!(r.from, key(1));
    assert_eq!(r.to, key(2));
    assert_eq!(r.status, OwnershipStatus::Pending);
}

fn answer_ctx(responder: Pubkey) -> RespondToRequest {
    RespondToRequest {
        ownership_request: request_ownership(&RequestOwnership { from: key(1), to: key(2) }),
        pet: pet(key(2), 80, 60),
        to: responder,
    }
}

#[test]
fn respond_accept_transfers_pet() {
    let mut ctx = answer_ctx(key(2));
    assert_eq!(respond_to_request(&mut ctx, true), Ok(()));
    assert_eq!(ctx.pet.owner, key(1));
    assert_eq!(ctx.ownership_request.status, OwnershipStatus::Accepted);
}

#[test]
fn respond_reject_keeps_owner() {
    let mut ctx = answer_ctx(key(2));
    assert_eq!(respond_to_request(&mut ctx, false), Ok(()));
    assert_eq!(ctx.pet.owner, key(2));
    assert_eq!(ctx.ownership_request.status, OwnershipStatus::Rejected);
}

#[test]
fn respond_by_other_identity_unauthorized() {
    let mut ctx = answer_ctx(key(3));
    assert_eq!(respond_to_request(&mut ctx, true), Err(ErrorCode::Unauthorized));
    assert_eq!(ctx.pet.owner, key(2));
    assert_eq!(ctx.ownership_request.status, OwnershipStatus::Pending);
}

#[test]
fn respond_twice_invalid_state() {
    let mut ctx = answer_ctx(key(2));
    assert_eq!(respond_to_request(&mut ctx, false), Ok(()));
    assert_eq!(respond_to_request(&mut ctx, true), Err(ErrorCode::InvalidState));
    assert_eq!(ctx.pet.owner, key(2));
    assert_eq!(ctx.ownership_request.status, OwnershipStatus::Rejected);
}

#[test]
fn pubkey_equality_compares_every_byte() {
    let mut b = [7u8; 32];
    b[31] = 8;
    assert_ne!(key(7), Pubkey::new(b));
    assert_eq!(key(7), Pubkey::new([7u8; 32]));
}

#[test]
fn error_messages() {
    assert_eq!(ErrorCode::RateLimited(RateLimit::TooFrequentInteraction).message(), "Too frequent interaction");
    assert_eq!(ErrorCode::ItemOwnershipViolation.message(), "Not the item owner");
}

#[test]
fn coins_for_formula() {
    assert_eq!(coins_for(80, 60), 7);
    assert_eq!(coins_for(100, 100), 10);
    assert_eq!(coins_for(255, 255), 25);
    assert_eq!(coins_for(0, 19), 0);
}

#[test]
fn claim_fits_near_the_top() {
    let mut p = pet(key(1), 100, 100);
    p.coins_earned = u64::MAX - 10;
    assert!(claim_fits(&p));
    p.coins_earned = u64::MAX - 9;
    assert!(!claim_fits(&p));
}
