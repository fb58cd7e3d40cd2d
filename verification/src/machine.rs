//! The escrow state machine over mathematical offers: for each action, why
//! it is rejected, if it is, and what it leaves behind when it is not.
//!
//! ```text
//! Created --accept--> Accepted --approve--> Completed --withdraw--> Withdrawn
//! ```

use crate::error::CoreErrorCode;
use crate::offer::{
    OfferView, MAX_CATEGORY_CHARS, MAX_DELIVERABLES_CHARS, MAX_DESCRIPTION_CHARS, MAX_ID_CHARS,
};
use anchor_lang::prelude::Pubkey;
use vstd::prelude::*;

verus! {

/// Why creating an offer with these inputs is rejected, or `None` where it
/// goes through. The texts are tested in the order id, deliverables,
/// category, description, then the amount, which must be positive. The funds
/// come last: the creator must have the amount and what the ledger charges
/// for keeping the record, and the custody balance must have room for the
/// amount.
pub open spec fn create_rejection(
    id: Seq<char>,
    deliverables: Seq<char>,
    category: Seq<char>,
    description: Seq<char>,
    amount: nat,
    available: nat,
    storage_cost: nat,
    custody: nat,
) -> Option<CoreErrorCode> {
    if id.len() > MAX_ID_CHARS {
        Some(CoreErrorCode::OfferIdTooLong)
    } else if deliverables.len() > MAX_DELIVERABLES_CHARS {
        Some(CoreErrorCode::DeliverablesTooLong)
    } else if category.len() > MAX_CATEGORY_CHARS {
        Some(CoreErrorCode::CategoryTooLong)
    } else if description.len() > MAX_DESCRIPTION_CHARS {
        Some(CoreErrorCode::DescriptionTooLong)
    } else if amount == 0 {
        Some(CoreErrorCode::AmountNotPositive)
    } else if available < amount + storage_cost {
        Some(CoreErrorCode::InsufficientFunds)
    } else if custody + amount > u64::MAX {
        Some(CoreErrorCode::LedgerTransferFailed)
    } else {
        None
    }
}

/// The offer that a creation leaves behind: nobody has accepted it, and no
/// flag is set.
pub open spec fn created(
    creator: Pubkey,
    bump: u8,
    amount: nat,
    id: Seq<char>,
    deliverables: Seq<char>,
    category: Seq<char>,
    description: Seq<char>,
) -> OfferView {
    OfferView {
        creator,
        receiver: None,
        amount,
        accepted: false,
        completed: false,
        withdrawn: false,
        id,
        bump,
        deliverables,
        category,
        description,
    }
}

/// What an action answers: `Ok` where nothing rejects it, else the rejection.
pub open spec fn verdict(rejection: Option<CoreErrorCode>) -> Result<(), CoreErrorCode> {
    match rejection {
        Some(e) => Err(e),
        None => Ok(()),
    }
}

impl OfferView {
    /// Why `caller` may not accept this offer, or `None` where they may.
    pub open spec fn accept_rejection(self, caller: Pubkey) -> Option<CoreErrorCode> {
        if caller == self.creator {
            Some(CoreErrorCode::OfferCreatorCannotAcceptOffer)
        } else if self.accepted {
            Some(CoreErrorCode::OfferAlreadyAccepted)
        } else if self.receiver is Some {
            Some(CoreErrorCode::OfferAlreadyAccepted)
        } else if self.completed {
            Some(CoreErrorCode::OfferAlreadyApprovedAsCompleted)
        } else {
            None
        }
    }

    /// This offer once `caller` has accepted it.
    pub open spec fn accepted_by(self, caller: Pubkey) -> OfferView {
        OfferView { accepted: true, receiver: Some(caller), ..self }
    }

    /// What an attempt of `caller` to accept leaves behind: the accepted
    /// offer, or this offer untouched where the attempt is rejected.
    pub open spec fn after_accept(self, caller: Pubkey) -> OfferView {
        if self.accept_rejection(caller) is None {
            self.accepted_by(caller)
        } else {
            self
        }
    }

    /// Why `caller` may not approve the completion of this offer, or `None`
    /// where they may.
    pub open spec fn approve_rejection(self, caller: Pubkey) -> Option<CoreErrorCode> {
        if caller != self.creator {
            Some(CoreErrorCode::OnlyOfferCreatorCanApproveOffer)
        } else if self.completed {
            Some(CoreErrorCode::OfferAlreadyApprovedAsCompleted)
        } else if !self.accepted {
            Some(CoreErrorCode::OfferNotAccepted)
        } else if self.receiver is None {
            Some(CoreErrorCode::NoReceiverAttached)
        } else {
            None
        }
    }

    /// This offer once its completion is approved.
    pub open spec fn approved(self) -> OfferView {
        OfferView { completed: true, ..self }
    }

    /// What an attempt of `caller` to approve leaves behind: the completed
    /// offer, or this offer untouched where the attempt is rejected.
    pub open spec fn after_approve(self, caller: Pubkey) -> OfferView {
        if self.approve_rejection(caller) is None {
            self.approved()
        } else {
            self
        }
    }

    /// Why `caller`, whose balance is `balance`, may not withdraw the funds of
    /// this offer while `custody` is held for it, or `None` where they may.
    /// The offer is tested first, then the caller, then the funds: custody
    /// must hold the amount, and the caller's balance must have room for it.
    pub open spec fn withdraw_rejection(self, caller: Pubkey, custody: nat, balance: nat) -> Option<
        CoreErrorCode,
    > {
        if !self.completed {
            Some(CoreErrorCode::OfferNotCompleted)
        } else if self.receiver != Some(caller) {
            Some(CoreErrorCode::OnlyApprovedReceiverCanReceivePayment)
        } else if self.withdrawn {
            Some(CoreErrorCode::OfferAlreadyWithdrawn)
        } else if custody < self.amount {
            Some(CoreErrorCode::InsufficientFunds)
        } else if balance + self.amount > u64::MAX {
            Some(CoreErrorCode::LedgerTransferFailed)
        } else {
            None
        }
    }

    /// This offer once its funds are paid out.
    pub open spec fn paid_out(self) -> OfferView {
        OfferView { withdrawn: true, ..self }
    }

    /// What an attempt of `caller` to withdraw leaves behind: the paid-out
    /// offer, or this offer untouched where the attempt is rejected.
    pub open spec fn after_withdraw(self, caller: Pubkey, custody: nat, balance: nat) -> OfferView {
        if self.withdraw_rejection(caller, custody, balance) is None {
            self.paid_out()
        } else {
            self
        }
    }

    /// Whether `custody` still holds what this offer locks: the whole amount
    /// until it is withdrawn.
    pub open spec fn funded_by(self, custody: nat) -> bool {
        !self.withdrawn ==> custody >= self.amount
    }
}

} // verus!
