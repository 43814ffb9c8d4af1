use vstd::prelude::*;

verus! {

/// A call on the external token ledger that an accepted operation needs.
/// The operation's state change stands only if this call succeeds.
#[derive(Clone, Copy, Debug, PartialEq, Eq, Structural)]
pub enum LedgerOp {
    /// Destroy `amount` units from the feeder's item account.
    Burn { amount: u64 },
    /// Credit `amount` reward units to the owner's account.
    MintTo { amount: u64 },
}

} // verus!
