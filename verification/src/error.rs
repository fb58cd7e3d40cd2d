//! The named rejections an escrow action can end in.

use vstd::prelude::*;
use vstd::string::*;

verus! {

/// Why an action was rejected. Every rejection leaves the offer and all
/// balances as they were.
#[derive(Clone, Copy, Debug, PartialEq, Eq, Structural)]
pub enum CoreErrorCode {
    OfferNotAccepted,
    OfferNotCompleted,
    CategoryTooLong,
    DescriptionTooLong,
    DeliverablesTooLong,
    InsufficientFunds,
    OfferAlreadyAccepted,
    OfferAlreadyApprovedAsCompleted,
    NoReceiverAttached,
    NoReceiverKeyAttached,
    OfferWithdrawalKeyNotMatchOfferReceiverKey,
    OnlyOfferCreatorCanApproveOffer,
    OnlyApprovedReceiverCanReceivePayment,
    OfferIdTooLong,
    OfferAlreadyWithdrawn,
    OfferCreatorCannotAcceptOffer,
    AmountNotPositive,
    LedgerTransferFailed,
}

/// The kinds of rejection. Input and resource rejections may go away when
/// the caller resubmits; authorization and state rejections will not.
#[derive(Clone, Copy, Debug, PartialEq, Eq, Structural)]
pub enum ErrorClass {
    /// An input was refused before anything else was looked at.
    Validation,
    /// The caller is not the one who may take this action.
    Authorization,
    /// The offer is not in the stage that the action needs.
    StatePrecondition,
    /// The funds that the action has to move are not there, or the ledger
    /// cannot move them.
    Resource,
}

impl CoreErrorCode {
    /// The kind of this rejection.
    pub open spec fn class_spec(self) -> ErrorClass {
        match self {
            CoreErrorCode::OfferIdTooLong
            | CoreErrorCode::DeliverablesTooLong
            | CoreErrorCode::CategoryTooLong
            | CoreErrorCode::DescriptionTooLong
            | CoreErrorCode::AmountNotPositive => ErrorClass::Validation,
            CoreErrorCode::OfferCreatorCannotAcceptOffer
            | CoreErrorCode::OnlyOfferCreatorCanApproveOffer
            | CoreErrorCode::OnlyApprovedReceiverCanReceivePayment
            | CoreErrorCode::OfferWithdrawalKeyNotMatchOfferReceiverKey => ErrorClass::Authorization,
            CoreErrorCode::OfferNotAccepted
            | CoreErrorCode::OfferNotCompleted
            | CoreErrorCode::OfferAlreadyAccepted
            | CoreErrorCode::OfferAlreadyApprovedAsCompleted
            | CoreErrorCode::OfferAlreadyWithdrawn
            | CoreErrorCode::NoReceiverAttached
            | CoreErrorCode::NoReceiverKeyAttached => ErrorClass::StatePrecondition,
            CoreErrorCode::InsufficientFunds | CoreErrorCode::LedgerTransferFailed =>
                ErrorClass::Resource,
        }
    }

    /// The kind of this rejection, by which a caller decides whether to try
    /// again.
    pub fn class(&self) -> (class: ErrorClass)
        ensures
            class == self.class_spec(),
    {
        match self {
            CoreErrorCode::OfferIdTooLong
            | CoreErrorCode::DeliverablesTooLong
            | CoreErrorCode::CategoryTooLong
            | CoreErrorCode::DescriptionTooLong
            | CoreErrorCode::AmountNotPositive => ErrorClass::Validation,
            CoreErrorCode::OfferCreatorCannotAcceptOffer
            | CoreErrorCode::OnlyOfferCreatorCanApproveOffer
            | CoreErrorCode::OnlyApprovedReceiverCanReceivePayment
            | CoreErrorCode::OfferWithdrawalKeyNotMatchOfferReceiverKey => ErrorClass::Authorization,
            CoreErrorCode::OfferNotAccepted
            | CoreErrorCode::OfferNotCompleted
            | CoreErrorCode::OfferAlreadyAccepted
            | CoreErrorCode::OfferAlreadyApprovedAsCompleted
            | CoreErrorCode::OfferAlreadyWithdrawn
            | CoreErrorCode::NoReceiverAttached
            | CoreErrorCode::NoReceiverKeyAttached => ErrorClass::StatePrecondition,
            CoreErrorCode::InsufficientFunds | CoreErrorCode::LedgerTransferFailed =>
                ErrorClass::Resource,
        }
    }

    /// The text shown to a caller for this rejection.
    pub open spec fn message_spec(self) -> Seq<char> {
        match self {
            CoreErrorCode::OfferNotAccepted => "The offer has not been accepted yet."@,
            CoreErrorCode::OfferNotCompleted =>
                "The completion of the offer has not yet been approved by its creator"@,
            CoreErrorCode::CategoryTooLong => "Category must not exceed 50 characters"@,
            CoreErrorCode::DescriptionTooLong => "Description must not exceed 240 characters"@,
            CoreErrorCode::DeliverablesTooLong => "Deliverables must not exceed 50 characters"@,
            CoreErrorCode::InsufficientFunds => "Insufficient funds to complete transaction"@,
            CoreErrorCode::OfferAlreadyAccepted => "Offer already accepted"@,
            CoreErrorCode::OfferAlreadyApprovedAsCompleted =>
                "Offer already approved as completed"@,
            CoreErrorCode::NoReceiverAttached => "No receiver attached to offer"@,
            CoreErrorCode::NoReceiverKeyAttached => "No receiver key attached to offer"@,
            CoreErrorCode::OfferWithdrawalKeyNotMatchOfferReceiverKey =>
                "Approval receiver key does not match offer receiver key"@,
            CoreErrorCode::OnlyOfferCreatorCanApproveOffer =>
                "Only the creator of an offer can approve the offer"@,
            CoreErrorCode::OnlyApprovedReceiverCanReceivePayment =>
                "Only approved receiver can receive payment"@,
            CoreErrorCode::OfferIdTooLong => "Offer id must not exceed 50 characters"@,
            CoreErrorCode::OfferAlreadyWithdrawn =>
                "The reward for this offer has already been claimed"@,
            CoreErrorCode::OfferCreatorCannotAcceptOffer =>
                "Offer cannot be accepted by its creator"@,
            CoreErrorCode::AmountNotPositive => "Amount must be greater than zero"@,
            CoreErrorCode::LedgerTransferFailed => "The ledger could not move the funds"@,
        }
    }

    /// Renders this rejection as its message text.
    pub fn message(&self) -> (text: String)
        ensures
            text@ == self.message_spec(),
    {
        let text: &str = match self {
            CoreErrorCode::OfferNotAccepted => "The offer has not been accepted yet.",
            CoreErrorCode::OfferNotCompleted =>
                "The completion of the offer has not yet been approved by its creator",
            CoreErrorCode::CategoryTooLong => "Category must not exceed 50 characters",
            CoreErrorCode::DescriptionTooLong => "Description must not exceed 240 characters",
            CoreErrorCode::DeliverablesTooLong => "Deliverables must not exceed 50 characters",
            CoreErrorCode::InsufficientFunds => "Insufficient funds to complete transaction",
            CoreErrorCode::OfferAlreadyAccepted => "Offer already accepted",
            CoreErrorCode::OfferAlreadyApprovedAsCompleted =>
                "Offer already approved as completed",
            CoreErrorCode::NoReceiverAttached => "No receiver attached to offer",
            CoreErrorCode::NoReceiverKeyAttached => "No receiver key attached to offer",
            CoreErrorCode::OfferWithdrawalKeyNotMatchOfferReceiverKey =>
                "Approval receiver key does not match offer receiver key",
            CoreErrorCode::OnlyOfferCreatorCanApproveOffer =>
                "Only the creator of an offer can approve the offer",
            CoreErrorCode::OnlyApprovedReceiverCanReceivePayment =>
                "Only approved receiver can receive payment",
            CoreErrorCode::OfferIdTooLong => "Offer id must not exceed 50 characters",
            CoreErrorCode::OfferAlreadyWithdrawn =>
                "The reward for this offer has already been claimed",
            CoreErrorCode::OfferCreatorCannotAcceptOffer =>
                "Offer cannot be accepted by its creator",
            CoreErrorCode::AmountNotPositive => "Amount must be greater than zero",
            CoreErrorCode::LedgerTransferFailed => "The ledger could not move the funds",
        };
        String::from_str(text)
    }
}

} // verus!
