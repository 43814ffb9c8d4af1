use vstd::prelude::*;
use crate::error::ErrorCode;
use crate::identity::Pubkey;
use crate::pet::Pet;

verus! {

/// Where an ownership request stands. A request leaves `Pending` once, for
/// one of the two other states.
#[derive(Clone, Copy, Debug, PartialEq, Eq, Structural)]
pub enum OwnershipStatus {
    Pending,
    Accepted,
    Rejected,
}

/// A request by `from` that `to` answer whether the pet changes hands.
#[derive(Clone, Copy, Debug)]
pub struct OwnershipRequest {
    pub from: Pubkey,
    pub to: Pubkey,
    pub status: OwnershipStatus,
}

/// What opening a request needs: who asks, and who is asked.
#[derive(Clone, Copy, Debug)]
pub struct RequestOwnership {
    pub from: Pubkey,
    pub to: Pubkey,
}

/// The accounts an answer touches: the request, the pet, and the identity
/// answering.
#[derive(Clone, Copy, Debug)]
pub struct RespondToRequest {
    pub ownership_request: OwnershipRequest,
    pub pet: Pet,
    pub to: Pubkey,
}

/// What answering with `accept` does to the request and the pet.
pub open spec fn respond_result(ctx: RespondToRequest, accept: bool) -> Result<RespondToRequest, ErrorCode> {
    if ctx.to@ != ctx.ownership_request.to@ {
        Err(ErrorCode::Unauthorized)
    } else if ctx.ownership_request.status != OwnershipStatus::Pending {
        Err(ErrorCode::InvalidState)
    } else if accept {
        Ok(
            RespondToRequest {
                ownership_request: OwnershipRequest {
                    status: OwnershipStatus::Accepted,
                    ..ctx.ownership_request
                },
                pet: Pet { owner: ctx.ownership_request.from, ..ctx.pet },
                ..ctx
            },
        )
    } else {
        Ok(
            RespondToRequest {
                ownership_request: OwnershipRequest {
                    status: OwnershipStatus::Rejected,
                    ..ctx.ownership_request
                },
                ..ctx
            },
        )
    }
}

/// Opens a pending request from `ctx.from` to `ctx.to`.
pub fn request_ownership(ctx: &RequestOwnership) -> (r: OwnershipRequest)
    ensures
        r.from == ctx.from,
        r.to == ctx.to,
        r.status == OwnershipStatus::Pending,
{
    OwnershipRequest { from: ctx.from, to: ctx.to, status: OwnershipStatus::Pending }
}

/// Answers a pending request. Only the identity the request names may answer,
/// and only once. Accepting hands the pet to the requester; rejecting leaves
/// the pet as it is.
pub fn respond_to_request(ctx: &mut RespondToRequest, accept: bool) -> (r: Result<(), ErrorCode>)
    ensures
        match respond_result(*old(ctx), accept) {
            Ok(c) => r is Ok && *final(ctx) == c,
            Err(e) => r == Err::<(), ErrorCode>(e) && *final(ctx) == *old(ctx),
        },
        r is Ok && accept ==> final(ctx).pet.owner == old(ctx).ownership_request.from
            && final(ctx).ownership_request.status == OwnershipStatus::Accepted,
        r is Ok && !accept ==> final(ctx).pet.owner == old(ctx).pet.owner
            && final(ctx).ownership_request.status == OwnershipStatus::Rejected,
{
    if ctx.to != ctx.ownership_request.to {
        return Err(ErrorCode::Unauthorized);
    }
    if ctx.ownership_request.status != OwnershipStatus::Pending {
        return Err(ErrorCode::InvalidState);
    }
    if accept {
        ctx.ownership_request.status = OwnershipStatus::Accepted;
        ctx.pet.owner = ctx.ownership_request.from;
    } else {
        ctx.ownership_request.status = OwnershipStatus::Rejected;
    }
    Ok(())
}

/// When the identity a pending request names answers it, accepting hands
/// the pet to the requester and marks the request accepted, while rejecting
/// leaves the pet's owner as it was and marks the request rejected.
pub proof fn answer_decides_transfer(ctx: RespondToRequest)
    requires
        ctx.to@ == ctx.ownership_request.to@,
        ctx.ownership_request.status == OwnershipStatus::Pending,
    ensures
        respond_result(ctx, true) is Ok,
        respond_result(ctx, true)->Ok_0.pet.owner == ctx.ownership_request.from,
        respond_result(ctx, true)->Ok_0.ownership_request.status == OwnershipStatus::Accepted,
        respond_result(ctx, false) is Ok,
        respond_result(ctx, false)->Ok_0.pet.owner == ctx.pet.owner,
        respond_result(ctx, false)->Ok_0.ownership_request.status == OwnershipStatus::Rejected,
{
}

} // verus!
