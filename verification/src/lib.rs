//! Two-party escrow: a creator locks funds against a deliverable, a receiver
//! accepts, the creator approves completion, the receiver withdraws.
//!
//! The [`Offer`] record moves through four stages, one action for each step.
//! Every action either applies its whole effect or rejects with a
//! [`CoreErrorCode`] and changes nothing. The module [`machine`] says for
//! each action when it is rejected and what it leaves behind; [`laws`] holds
//! what follows for every offer and every caller.

pub mod actions;
pub mod error;
pub mod identity;
pub mod laws;
pub mod machine;
pub mod offer;

pub use actions::{
    accept_offer, approve_offer_completion, create_offer, withdraw_offer, AcceptOffer,
    ApproveOfferCompletion, CreateOffer, WithdrawOffer,
};
pub use error::{CoreErrorCode, ErrorClass};
pub use offer::{Offer, Stage};
