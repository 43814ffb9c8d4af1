//! Rule engine for a virtual pet: care actions with cooldowns, a daily
//! reward, and a two-step ownership handshake.
pub mod care;
pub mod economy;
pub mod error;
pub mod handshake;
pub mod identity;
pub mod ledger;
pub mod pet;

pub use error::{ErrorCode, RateLimit};
pub use identity::Pubkey;
pub use ledger::LedgerOp;
pub use pet::{initialize_pet, InitializePet, Item, Pet, MAX_STAT};
pub use care::{feed_pet, play_with_pet, FeedPet, PlayWithPet, PLAY_BOOST, PLAY_COOLDOWN};
pub use economy::{claim_fits, coins_for, earn_coins, EarnCoins, COIN_COOLDOWN, POINTS_PER_COIN};
pub use handshake::{
    request_ownership, respond_to_request, OwnershipRequest, OwnershipStatus, RequestOwnership,
    RespondToRequest,
};
