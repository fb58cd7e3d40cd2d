//! The four escrow actions. Each takes the accounts it works on as plain
//! values, tests its preconditions in a fixed order, and either applies its
//! whole effect or rejects and changes nothing.

use crate::error::CoreErrorCode;
use crate::identity::{holds_key, same_key};
use crate::machine::{create_rejection, created, verdict};
use crate::offer::{
    Offer, MAX_CATEGORY_CHARS, MAX_DELIVERABLES_CHARS, MAX_DESCRIPTION_CHARS, MAX_ID_CHARS,
};
use anchor_lang::prelude::Pubkey;
use vstd::prelude::*;
use vstd::string::*;

verus! {

/// What creating an offer works on: the creator with their available
/// balance, and the custody balance that will hold the locked funds.
#[derive(Debug, PartialEq, Eq)]
pub struct CreateOffer {
    /// Who creates the offer.
    pub creator: Pubkey,
    /// What the creator can spend.
    pub creator_balance: u64,
    /// What is held in custody for the offer.
    pub custody: u64,
    /// What the ledger charges the creator for keeping the record.
    pub storage_cost: u64,
    /// The bump of the address under which the record is kept.
    pub bump: u8,
}

/// What accepting an offer works on.
#[derive(Debug, PartialEq, Eq)]
pub struct AcceptOffer {
    /// The offer to accept.
    pub offer: Offer,
    /// Who asks to become the receiver.
    pub receiver: Pubkey,
}

/// What approving the completion of an offer works on.
#[derive(Debug, PartialEq, Eq)]
pub struct ApproveOfferCompletion {
    /// The offer whose completion is to be approved.
    pub offer: Offer,
    /// Who asks to approve; only the offer's creator may.
    pub creator: Pubkey,
}

/// What withdrawing the funds of an offer works on.
#[derive(Debug, PartialEq, Eq)]
pub struct WithdrawOffer {
    /// The offer whose funds are to be paid out.
    pub offer: Offer,
    /// What is held in custody for the offer.
    pub custody: u64,
    /// Who asks for the funds; only the offer's receiver may.
    pub receiver: Pubkey,
    /// What the one who asks can spend.
    pub receiver_balance: u64,
}

/// Creates an offer and locks `amount` for it: on success the creator's
/// balance falls by `amount`, the custody balance rises by `amount`, and the
/// new offer is returned with no flag set and no receiver. On rejection no
/// offer is returned and no balance changes.
///
/// The inputs are judged first, the texts before the amount, then the
/// creator's funds, then the room that custody has for the amount.
pub fn create_offer(
    ctx: &mut CreateOffer,
    amount: u64,
    offer_id: String,
    deliverables: String,
    category: String,
    description: String,
) -> (res: Result<Offer, CoreErrorCode>)
    ensures
        match create_rejection(
            offer_id@,
            deliverables@,
            category@,
            description@,
            amount as nat,
            old(ctx).creator_balance as nat,
            old(ctx).storage_cost as nat,
            old(ctx).custody as nat,
        ) {
            Some(e) => res == Err::<Offer, CoreErrorCode>(e) && *final(ctx) == *old(ctx),
            None => {
                &&& res is Ok
                &&& res->Ok_0@ == created(
                    old(ctx).creator,
                    old(ctx).bump,
                    amount as nat,
                    offer_id@,
                    deliverables@,
                    category@,
                    description@,
                )
                &&& res->Ok_0@.is_valid()
                &&& final(ctx).creator_balance == old(ctx).creator_balance - amount
                &&& final(ctx).custody == old(ctx).custody + amount
                &&& final(ctx).creator_balance + final(ctx).custody == old(ctx).creator_balance
                    + old(ctx).custody
                &&& final(ctx).creator == old(ctx).creator
                &&& final(ctx).storage_cost == old(ctx).storage_cost
                &&& final(ctx).bump == old(ctx).bump
            },
        },
{
    if offer_id.as_str().unicode_len() > MAX_ID_CHARS {
        return Err(CoreErrorCode::OfferIdTooLong);
    }
    if deliverables.as_str().unicode_len() > MAX_DELIVERABLES_CHARS {
        return Err(CoreErrorCode::DeliverablesTooLong);
    }
    if category.as_str().unicode_len() > MAX_CATEGORY_CHARS {
        return Err(CoreErrorCode::CategoryTooLong);
    }
    if description.as_str().unicode_len() > MAX_DESCRIPTION_CHARS {
        return Err(CoreErrorCode::DescriptionTooLong);
    }
    if amount == 0 {
        return Err(CoreErrorCode::AmountNotPositive);
    }
    match amount.checked_add(ctx.storage_cost) {
        Some(needed) => {
            if ctx.creator_balance < needed {
                return Err(CoreErrorCode::InsufficientFunds);
            }
        },
        None => {
            return Err(CoreErrorCode::InsufficientFunds);
        },
    }
    let locked: u64 = match ctx.custody.checked_add(amount) {
        Some(sum) => sum,
        None => {
            return Err(CoreErrorCode::LedgerTransferFailed);
        },
    };
    let offer = Offer {
        creator: ctx.creator,
        receiver: None,
        amount,
        accepted: false,
        completed: false,
        withdrawn: false,
        id: offer_id,
        bump: ctx.bump,
        deliverables,
        category,
        description,
    };
    ctx.creator_balance = ctx.creator_balance - amount;
    ctx.custody = locked;
    Ok(offer)
}

/// Makes the one who asks the receiver of the offer. The creator may not
/// accept their own offer, and an offer is accepted once only.
pub fn accept_offer(ctx: &mut AcceptOffer) -> (res: Result<(), CoreErrorCode>)
    ensures
        res == verdict(old(ctx).offer@.accept_rejection(old(ctx).receiver)),
        final(ctx).offer@ == old(ctx).offer@.after_accept(old(ctx).receiver),
        final(ctx).receiver == old(ctx).receiver,
        res is Err ==> *final(ctx) == *old(ctx),
        old(ctx).offer@.is_valid() ==> final(ctx).offer@.is_valid(),
{
    if same_key(&ctx.receiver, &ctx.offer.creator) {
        return Err(CoreErrorCode::OfferCreatorCannotAcceptOffer);
    }
    if ctx.offer.accepted {
        return Err(CoreErrorCode::OfferAlreadyAccepted);
    }
    if ctx.offer.receiver.is_some() {
        return Err(CoreErrorCode::OfferAlreadyAccepted);
    }
    if ctx.offer.completed {
        return Err(CoreErrorCode::OfferAlreadyApprovedAsCompleted);
    }
    ctx.offer.accepted = true;
    ctx.offer.receiver = Some(ctx.receiver);
    Ok(())
}

/// Marks the offer as completed, which unlocks the withdrawal. Only the
/// creator may approve, once, and only an offer that a receiver has
/// accepted. No funds move.
pub fn approve_offer_completion(ctx: &mut ApproveOfferCompletion) -> (res: Result<
    (),
    CoreErrorCode,
>)
    ensures
        res == verdict(old(ctx).offer@.approve_rejection(old(ctx).creator)),
        final(ctx).offer@ == old(ctx).offer@.after_approve(old(ctx).creator),
        final(ctx).creator == old(ctx).creator,
        res is Err ==> *final(ctx) == *old(ctx),
        old(ctx).offer@.is_valid() ==> final(ctx).offer@.is_valid(),
{
    if !same_key(&ctx.creator, &ctx.offer.creator) {
        return Err(CoreErrorCode::OnlyOfferCreatorCanApproveOffer);
    }
    if ctx.offer.completed {
        return Err(CoreErrorCode::OfferAlreadyApprovedAsCompleted);
    }
    if !ctx.offer.accepted {
        return Err(CoreErrorCode::OfferNotAccepted);
    }
    if ctx.offer.receiver.is_none() {
        return Err(CoreErrorCode::NoReceiverAttached);
    }
    ctx.offer.completed = true;
    Ok(())
}

/// Pays the whole amount out of custody to the receiver and marks the offer
/// as withdrawn. Only the receiver of a completed offer may withdraw, once;
/// custody must hold the amount and the receiver's balance must have room
/// for it. On rejection no balance changes and the offer stays as it was.
pub fn withdraw_offer(ctx: &mut WithdrawOffer) -> (res: Result<(), CoreErrorCode>)
    ensures
        res == verdict(
            old(ctx).offer@.withdraw_rejection(
                old(ctx).receiver,
                old(ctx).custody as nat,
                old(ctx).receiver_balance as nat,
            ),
        ),
        final(ctx).offer@ == old(ctx).offer@.after_withdraw(
            old(ctx).receiver,
            old(ctx).custody as nat,
            old(ctx).receiver_balance as nat,
        ),
        final(ctx).receiver == old(ctx).receiver,
        res is Ok ==> final(ctx).custody == old(ctx).custody - old(ctx).offer.amount,
        res is Ok ==> final(ctx).receiver_balance == old(ctx).receiver_balance + old(
            ctx,
        ).offer.amount,
        res is Err ==> *final(ctx) == *old(ctx),
        final(ctx).custody + final(ctx).receiver_balance == old(ctx).custody + old(
            ctx,
        ).receiver_balance,
        old(ctx).offer@.is_valid() ==> final(ctx).offer@.is_valid(),
{
    if !ctx.offer.completed {
        return Err(CoreErrorCode::OfferNotCompleted);
    }
    if !holds_key(&ctx.offer.receiver, &ctx.receiver) {
        return Err(CoreErrorCode::OnlyApprovedReceiverCanReceivePayment);
    }
    if ctx.offer.withdrawn {
        return Err(CoreErrorCode::OfferAlreadyWithdrawn);
    }
    let amount: u64 = ctx.offer.amount;
    if ctx.custody < amount {
        return Err(CoreErrorCode::InsufficientFunds);
    }
    let paid: u64 = match ctx.receiver_balance.checked_add(amount) {
        Some(sum) => sum,
        None => {
            return Err(CoreErrorCode::LedgerTransferFailed);
        },
    };
    ctx.custody = ctx.custody - amount;
    ctx.receiver_balance = paid;
    ctx.offer.withdrawn = true;
    Ok(())
}

} // verus!
