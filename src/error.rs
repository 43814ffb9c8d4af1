use vstd::prelude::*;

verus! {

/// Which cooldown window a rejected action fell inside.
#[derive(Clone, Copy, Debug, PartialEq, Eq, Structural)]
pub enum RateLimit {
    /// Playing again within an hour of the last play.
    TooFrequentInteraction,
    /// Claiming the reward again within a day of the last claim.
    TooFrequentCoinEarn,
}

/// Every way an operation can be refused. A refused operation changes nothing.
#[derive(Clone, Copy, Debug, PartialEq, Eq, Structural)]
pub enum ErrorCode {
    /// The acting identity is not the one the record names.
    Unauthorized,
    /// The action was attempted inside its cooldown window.
    RateLimited(RateLimit),
    /// The feeder does not own the item being fed.
    ItemOwnershipViolation,
    /// The ledger cannot carry out the mint or burn that the action needs.
    LedgerFailure,
    /// An ownership request was answered after it had been resolved.
    InvalidState,
}

impl ErrorCode {
    /// A short human-readable description of the error.
    pub fn message(&self) -> (r: &'static str) {
        match self {
            ErrorCode::Unauthorized => "Unauthorized",
            ErrorCode::RateLimited(RateLimit::TooFrequentInteraction) => "Too frequent interaction",
            ErrorCode::RateLimited(RateLimit::TooFrequentCoinEarn) => "Too frequent coin earn",
            ErrorCode::ItemOwnershipViolation => "Not the item owner",
            ErrorCode::LedgerFailure => "Ledger operation failed",
            ErrorCode::InvalidState => "Request already resolved",
        }
    }
}

} // verus!
