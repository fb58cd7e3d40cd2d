//! The offer record, its mathematical view and its rules of validity.

use anchor_lang::prelude::Pubkey;
use vstd::prelude::*;

verus! {

/// Most characters an offer id may have.
pub const MAX_ID_CHARS: usize = 50;

/// Most characters the deliverables text may have.
pub const MAX_DELIVERABLES_CHARS: usize = 50;

/// Most characters the category text may have.
pub const MAX_CATEGORY_CHARS: usize = 50;

/// Most characters the description text may have.
pub const MAX_DESCRIPTION_CHARS: usize = 240;

/// Bytes of the header that precedes a stored record.
pub const DISCRIMINATOR_LENGTH: usize = 8;

/// Bytes of the stored creator key.
pub const CREATOR_LENGTH: usize = 32;

/// Bytes of the stored receiver: a presence tag and a key.
pub const RECEIVER_LENGTH: usize = 1 + 32;

/// Bytes of the stored amount.
pub const AMOUNT_LENGTH: usize = 8;

/// Bytes of the stored `accepted` flag.
pub const ACCEPTED_LENGTH: usize = 1;

/// Bytes of the stored `completed` flag.
pub const COMPLETED_LENGTH: usize = 1;

/// Bytes of the stored `withdrawn` flag.
pub const WITHDRAWN_LENGTH: usize = 1;

/// Bytes set aside for the id: four for each character allowed.
pub const MAX_ID_LENGTH: usize = 50 * 4;

/// Bytes of the stored address bump.
pub const BUMP_LENGTH: usize = 1;

/// Bytes set aside for the deliverables: four for each character allowed.
pub const MAX_DELIVERABLES_LENGTH: usize = 50 * 4;

/// Bytes set aside for the category: four for each character allowed.
pub const MAX_CATEGORY_LENGTH: usize = 50 * 4;

/// Bytes set aside for the description: four for each character allowed.
pub const MAX_DESCRIPTION_LENGTH: usize = 240 * 4;

/// One locked-fund agreement between a creator and a receiver.
#[derive(Debug, PartialEq, Eq)]
pub struct Offer {
    /// Who funded the offer; never changes.
    pub creator: Pubkey,
    /// Who accepted the offer; unset until then, and fixed once set.
    pub receiver: Option<Pubkey>,
    /// The locked funds, in the smallest unit of the currency.
    pub amount: u64,
    /// Set by the acceptance.
    pub accepted: bool,
    /// Set by the creator's approval of the completion.
    pub completed: bool,
    /// Set by the withdrawal.
    pub withdrawn: bool,
    /// Names the offer among those of its creator.
    pub id: String,
    /// The bump of the address under which the record is kept.
    pub bump: u8,
    /// What the receiver is to deliver.
    pub deliverables: String,
    /// The kind of work.
    pub category: String,
    /// The work in more words.
    pub description: String,
}

/// How far an offer has come.
#[derive(Clone, Copy, Debug, PartialEq, Eq, Structural)]
pub enum Stage {
    Created,
    Accepted,
    Completed,
    Withdrawn,
}

/// An offer as a mathematical value: texts are sequences of characters and
/// the amount is a natural number.
pub struct OfferView {
    pub creator: Pubkey,
    pub receiver: Option<Pubkey>,
    pub amount: nat,
    pub accepted: bool,
    pub completed: bool,
    pub withdrawn: bool,
    pub id: Seq<char>,
    pub bump: u8,
    pub deliverables: Seq<char>,
    pub category: Seq<char>,
    pub description: Seq<char>,
}

impl View for Offer {
    type V = OfferView;

    open spec fn view(&self) -> OfferView {
        OfferView {
            creator: self.creator,
            receiver: self.receiver,
            amount: self.amount as nat,
            accepted: self.accepted,
            completed: self.completed,
            withdrawn: self.withdrawn,
            id: self.id@,
            bump: self.bump,
            deliverables: self.deliverables@,
            category: self.category@,
            description: self.description@,
        }
    }
}

impl Clone for Offer {
    /// A second record with the same contents.
    fn clone(&self) -> (copy: Offer)
        ensures
            copy@ == self@,
    {
        Offer {
            creator: self.creator,
            receiver: self.receiver,
            amount: self.amount,
            accepted: self.accepted,
            completed: self.completed,
            withdrawn: self.withdrawn,
            id: self.id.clone(),
            bump: self.bump,
            deliverables: self.deliverables.clone(),
            category: self.category.clone(),
            description: self.description.clone(),
        }
    }
}

impl OfferView {
    /// The four texts keep to their character limits.
    pub open spec fn texts_fit(self) -> bool {
        &&& self.id.len() <= MAX_ID_CHARS
        &&& self.deliverables.len() <= MAX_DELIVERABLES_CHARS
        &&& self.category.len() <= MAX_CATEGORY_CHARS
        &&& self.description.len() <= MAX_DESCRIPTION_CHARS
    }

    /// The flags form an ordered progress vector: nothing is withdrawn that
    /// was not completed, nothing completed that was not accepted, and an
    /// offer is accepted exactly when it has a receiver.
    pub open spec fn flags_ordered(self) -> bool {
        &&& self.withdrawn ==> self.completed
        &&& self.completed ==> self.accepted
        &&& self.accepted <==> self.receiver is Some
    }

    /// What holds of every offer that was created and then only changed by
    /// the escrow's actions.
    pub open spec fn is_valid(self) -> bool {
        &&& self.texts_fit()
        &&& self.flags_ordered()
        &&& self.amount > 0
        &&& self.receiver != Some(self.creator)
    }

    /// The furthest stage whose flag is set.
    pub open spec fn stage(self) -> Stage {
        if self.withdrawn {
            Stage::Withdrawn
        } else if self.completed {
            Stage::Completed
        } else if self.accepted {
            Stage::Accepted
        } else {
            Stage::Created
        }
    }

    /// Whether `other` is this offer with, at most, its progress changed:
    /// creator, amount, id, bump and the three texts are the same.
    pub open spec fn same_terms(self, other: OfferView) -> bool {
        &&& self.creator == other.creator
        &&& self.amount == other.amount
        &&& self.id == other.id
        &&& self.bump == other.bump
        &&& self.deliverables == other.deliverables
        &&& self.category == other.category
        &&& self.description == other.description
    }
}

impl Stage {
    /// The place of a stage in the lifecycle, counted from zero.
    pub open spec fn rank(self) -> nat {
        match self {
            Stage::Created => 0,
            Stage::Accepted => 1,
            Stage::Completed => 2,
            Stage::Withdrawn => 3,
        }
    }
}

impl Offer {
    /// Bytes set aside for one stored record.
    pub const LEN: usize = DISCRIMINATOR_LENGTH + CREATOR_LENGTH + RECEIVER_LENGTH + AMOUNT_LENGTH
        + ACCEPTED_LENGTH + COMPLETED_LENGTH + WITHDRAWN_LENGTH + MAX_ID_LENGTH + BUMP_LENGTH
        + MAX_DELIVERABLES_LENGTH + MAX_CATEGORY_LENGTH + MAX_DESCRIPTION_LENGTH;

    /// The furthest stage this offer has reached.
    pub fn stage(&self) -> (stage: Stage)
        ensures
            stage == self@.stage(),
    {
        if self.withdrawn {
            Stage::Withdrawn
        } else if self.completed {
            Stage::Completed
        } else if self.accepted {
            Stage::Accepted
        } else {
            Stage::Created
        }
    }
}

} // verus!
