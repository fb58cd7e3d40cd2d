//! What holds of the escrow whatever the offer and whoever calls: the laws
//! of the state machine, stated over the functions that the actions'
//! contracts are written in, and proved.

use crate::error::{CoreErrorCode, ErrorClass};
use crate::machine::{create_rejection, created};
use crate::offer::{
    Offer, OfferView, Stage, MAX_CATEGORY_CHARS, MAX_CATEGORY_LENGTH, MAX_DELIVERABLES_CHARS,
    MAX_DELIVERABLES_LENGTH, MAX_DESCRIPTION_CHARS, MAX_DESCRIPTION_LENGTH, MAX_ID_CHARS,
    MAX_ID_LENGTH,
};
use anchor_lang::prelude::Pubkey;
use vstd::prelude::*;
use vstd::utf8::encode_utf8;

verus! {

/// A creation that is not rejected leaves a valid offer in its first stage,
/// with a positive amount that the creator had and that custody has room
/// for; the custody balance raised by the amount covers the offer.
pub proof fn law_creation_is_valid_and_funded(
    creator: Pubkey,
    bump: u8,
    amount: nat,
    id: Seq<char>,
    deliverables: Seq<char>,
    category: Seq<char>,
    description: Seq<char>,
    available: nat,
    storage_cost: nat,
    custody: nat,
)
    requires
        create_rejection(
            id,
            deliverables,
            category,
            description,
            amount,
            available,
            storage_cost,
            custody,
        ) is None,
    ensures
        created(creator, bump, amount, id, deliverables, category, description).is_valid(),
        created(creator, bump, amount, id, deliverables, category, description).stage()
            == Stage::Created,
        created(creator, bump, amount, id, deliverables, category, description).funded_by(
            custody + amount,
        ),
        amount > 0,
        available >= amount + storage_cost,
        custody + amount <= u64::MAX,
{
}

/// A creation is judged by its inputs before its funds. Whatever the
/// balances, an overlong text is rejected under the name of the first text
/// that is too long, in the order id, deliverables, category, description;
/// where the texts fit, an amount of zero is rejected as not positive.
pub proof fn law_creation_judges_inputs_first(
    id: Seq<char>,
    deliverables: Seq<char>,
    category: Seq<char>,
    description: Seq<char>,
    amount: nat,
    available: nat,
    storage_cost: nat,
    custody: nat,
)
    ensures
        id.len() > MAX_ID_CHARS ==> create_rejection(
            id,
            deliverables,
            category,
            description,
            amount,
            available,
            storage_cost,
            custody,
        ) == Some(CoreErrorCode::OfferIdTooLong),
        id.len() <= MAX_ID_CHARS && deliverables.len() > MAX_DELIVERABLES_CHARS
            ==> create_rejection(
            id,
            deliverables,
            category,
            description,
            amount,
            available,
            storage_cost,
            custody,
        ) == Some(CoreErrorCode::DeliverablesTooLong),
        id.len() <= MAX_ID_CHARS && deliverables.len() <= MAX_DELIVERABLES_CHARS && category.len()
            > MAX_CATEGORY_CHARS ==> create_rejection(
            id,
            deliverables,
            category,
            description,
            amount,
            available,
            storage_cost,
            custody,
        ) == Some(CoreErrorCode::CategoryTooLong),
        id.len() <= MAX_ID_CHARS && deliverables.len() <= MAX_DELIVERABLES_CHARS && category.len()
            <= MAX_CATEGORY_CHARS && description.len() > MAX_DESCRIPTION_CHARS
            ==> create_rejection(
            id,
            deliverables,
            category,
            description,
            amount,
            available,
            storage_cost,
            custody,
        ) == Some(CoreErrorCode::DescriptionTooLong),
        id.len() <= MAX_ID_CHARS && deliverables.len() <= MAX_DELIVERABLES_CHARS && category.len()
            <= MAX_CATEGORY_CHARS && description.len() <= MAX_DESCRIPTION_CHARS && amount == 0
            ==> create_rejection(
            id,
            deliverables,
            category,
            description,
            amount,
            available,
            storage_cost,
            custody,
        ) == Some(CoreErrorCode::AmountNotPositive),
{
}

/// An offer is accepted once only. After one caller has accepted, every
/// further attempt is rejected and leaves the offer, and so its receiver, as
/// the first acceptance left it: anyone but the creator is told that the
/// offer is already accepted, the creator that they cannot accept their own.
pub proof fn law_accept_once(offer: OfferView, first: Pubkey, second: Pubkey)
    requires
        offer.accept_rejection(first) is None,
    ensures
        offer.after_accept(first).receiver == Some(first),
        offer.after_accept(first).after_accept(second) == offer.after_accept(first),
        second != offer.creator ==> offer.after_accept(first).accept_rejection(second) == Some(
            CoreErrorCode::OfferAlreadyAccepted,
        ),
        second == offer.creator ==> offer.after_accept(first).accept_rejection(second) == Some(
            CoreErrorCode::OfferCreatorCannotAcceptOffer,
        ),
{
}

/// Of two callers who both try to accept an offer that either could accept,
/// one after the other, the first succeeds and becomes the receiver, and the
/// second is told that the offer is already accepted.
pub proof fn law_first_acceptance_wins(offer: OfferView, first: Pubkey, second: Pubkey)
    requires
        offer.accept_rejection(first) is None,
        offer.accept_rejection(second) is None,
    ensures
        offer.after_accept(first).accept_rejection(second) == Some(
            CoreErrorCode::OfferAlreadyAccepted,
        ),
        offer.after_accept(first).after_accept(second).receiver == Some(first),
{
}

/// Whatever the state of an offer, nobody but its creator can approve its
/// completion: the attempt is rejected as unauthorized and changes nothing.
pub proof fn law_only_creator_approves(offer: OfferView, caller: Pubkey)
    requires
        caller != offer.creator,
    ensures
        offer.approve_rejection(caller) == Some(CoreErrorCode::OnlyOfferCreatorCanApproveOffer),
        offer.after_approve(caller) == offer,
{
}

/// An approval that goes through was asked for by the creator, for an offer
/// that a receiver had accepted and that was not yet completed.
pub proof fn law_approval_needs_acceptance(offer: OfferView, caller: Pubkey)
    requires
        offer.approve_rejection(caller) is None,
    ensures
        caller == offer.creator,
        offer.accepted,
        offer.receiver is Some,
        !offer.completed,
{
}

/// Until the completion of an offer is approved, no withdrawal goes through,
/// accepted or not, whoever asks and whatever the balances: the attempt is
/// rejected as not completed and changes nothing.
pub proof fn law_no_withdrawal_before_completion(
    offer: OfferView,
    caller: Pubkey,
    custody: nat,
    balance: nat,
)
    requires
        !offer.completed,
    ensures
        offer.withdraw_rejection(caller, custody, balance) == Some(
            CoreErrorCode::OfferNotCompleted,
        ),
        offer.after_withdraw(caller, custody, balance) == offer,
{
}

/// A withdrawal that goes through pays the receiver of a completed offer
/// that was not yet withdrawn, out of a custody that holds the amount, into
/// a balance that has room for it.
pub proof fn law_withdrawal_pays_receiver_once(
    offer: OfferView,
    caller: Pubkey,
    custody: nat,
    balance: nat,
)
    requires
        offer.withdraw_rejection(caller, custody, balance) is None,
    ensures
        offer.receiver == Some(caller),
        offer.completed,
        !offer.withdrawn,
        custody >= offer.amount,
        balance + offer.amount <= u64::MAX,
{
}

/// A withdrawal that the ledger cannot make fails and changes nothing. Where
/// the receiver of a completed offer that was not yet withdrawn asks, short
/// custody is rejected as insufficient funds, and a balance without room for
/// the amount as a failed transfer; the offer stays not withdrawn.
pub proof fn law_failed_transfer_pays_nothing(
    offer: OfferView,
    caller: Pubkey,
    custody: nat,
    balance: nat,
)
    requires
        offer.completed,
        offer.receiver == Some(caller),
        !offer.withdrawn,
        custody < offer.amount || balance + offer.amount > u64::MAX,
    ensures
        custody < offer.amount ==> offer.withdraw_rejection(caller, custody, balance) == Some(
            CoreErrorCode::InsufficientFunds,
        ),
        custody >= offer.amount ==> offer.withdraw_rejection(caller, custody, balance) == Some(
            CoreErrorCode::LedgerTransferFailed,
        ),
        offer.after_withdraw(caller, custody, balance) == offer,
        !offer.after_withdraw(caller, custody, balance).withdrawn,
{
}

/// No action is replayed. Once an approval went through, a second one by the
/// creator is rejected as already approved; once a withdrawal went through,
/// a second one by the receiver is rejected as already withdrawn, whatever
/// the balances. Neither changes the offer.
pub proof fn law_no_replay(
    offer: OfferView,
    caller: Pubkey,
    custody: nat,
    balance: nat,
    later_custody: nat,
    later_balance: nat,
)
    ensures
        offer.approve_rejection(caller) is None ==> {
            &&& offer.approved().approve_rejection(caller) == Some(
                CoreErrorCode::OfferAlreadyApprovedAsCompleted,
            )
            &&& offer.approved().after_approve(caller) == offer.approved()
        },
        offer.withdraw_rejection(caller, custody, balance) is None ==> {
            &&& offer.paid_out().withdraw_rejection(caller, later_custody, later_balance) == Some(
                CoreErrorCode::OfferAlreadyWithdrawn,
            )
            &&& offer.paid_out().after_withdraw(caller, later_custody, later_balance)
                == offer.paid_out()
        },
{
}

/// Every attempt, accepted or rejected, leaves a valid offer valid.
pub proof fn law_validity_is_kept(offer: OfferView, caller: Pubkey, custody: nat, balance: nat)
    requires
        offer.is_valid(),
    ensures
        offer.after_accept(caller).is_valid(),
        offer.after_approve(caller).is_valid(),
        offer.after_withdraw(caller, custody, balance).is_valid(),
{
}

/// No attempt changes the terms of an offer: creator, amount, id, bump and
/// the three texts stay as they were created. A receiver, once set, stays.
pub proof fn law_terms_are_fixed(offer: OfferView, caller: Pubkey, custody: nat, balance: nat)
    ensures
        offer.same_terms(offer.after_accept(caller)),
        offer.same_terms(offer.after_approve(caller)),
        offer.same_terms(offer.after_withdraw(caller, custody, balance)),
        offer.receiver is Some ==> {
            &&& offer.after_accept(caller).receiver == offer.receiver
            &&& offer.after_approve(caller).receiver == offer.receiver
            &&& offer.after_withdraw(caller, custody, balance).receiver == offer.receiver
        },
{
}

/// On a valid offer each action goes through in exactly one stage and for
/// exactly one kind of caller: acceptance in the first stage for anyone but
/// the creator, approval in the accepted stage for the creator, withdrawal
/// in the completed stage for the receiver where custody holds the amount
/// and the receiver's balance has room for it.
pub proof fn law_each_action_has_its_stage(
    offer: OfferView,
    caller: Pubkey,
    custody: nat,
    balance: nat,
)
    requires
        offer.is_valid(),
    ensures
        offer.accept_rejection(caller) is None <==> offer.stage() == Stage::Created && caller
            != offer.creator,
        offer.approve_rejection(caller) is None <==> offer.stage() == Stage::Accepted && caller
            == offer.creator,
        offer.withdraw_rejection(caller, custody, balance) is None <==> offer.stage()
            == Stage::Completed && offer.receiver == Some(caller) && custody >= offer.amount
            && balance + offer.amount <= u64::MAX,
{
}

/// Every transition is a strict forward edge. On a valid offer an action
/// that goes through moves the offer to the next stage, and one that is
/// rejected leaves the stage as it was: no attempt ever takes an offer back,
/// or past a stage.
pub proof fn law_stages_only_advance(offer: OfferView, caller: Pubkey, custody: nat, balance: nat)
    requires
        offer.is_valid(),
    ensures
        offer.accept_rejection(caller) is None ==> offer.after_accept(caller).stage()
            == Stage::Accepted,
        offer.approve_rejection(caller) is None ==> offer.after_approve(caller).stage()
            == Stage::Completed,
        offer.withdraw_rejection(caller, custody, balance) is None ==> offer.after_withdraw(
            caller,
            custody,
            balance,
        ).stage() == Stage::Withdrawn,
        offer.accept_rejection(caller) is Some ==> offer.after_accept(caller).stage()
            == offer.stage(),
        offer.approve_rejection(caller) is Some ==> offer.after_approve(caller).stage()
            == offer.stage(),
        offer.withdraw_rejection(caller, custody, balance) is Some ==> offer.after_withdraw(
            caller,
            custody,
            balance,
        ).stage() == offer.stage(),
        offer.after_accept(caller).stage().rank() <= offer.stage().rank() + 1,
        offer.after_approve(caller).stage().rank() <= offer.stage().rank() + 1,
        offer.after_withdraw(caller, custody, balance).stage().rank() <= offer.stage().rank() + 1,
        offer.after_accept(caller).stage().rank() >= offer.stage().rank(),
        offer.after_approve(caller).stage().rank() >= offer.stage().rank(),
        offer.after_withdraw(caller, custody, balance).stage().rank() >= offer.stage().rank(),
{
}

/// Custody that covers an offer keeps covering it. Acceptance and approval
/// move no funds, so the same custody covers the offer afterwards; a
/// withdrawal from covering custody is never rejected for want of funds,
/// takes exactly the amount, and whatever is left covers the paid-out offer.
pub proof fn law_custody_covers_offer(offer: OfferView, caller: Pubkey, custody: nat, balance: nat)
    requires
        offer.funded_by(custody),
    ensures
        offer.after_accept(caller).funded_by(custody),
        offer.after_approve(caller).funded_by(custody),
        offer.withdraw_rejection(caller, custody, balance) != Some(
            CoreErrorCode::InsufficientFunds,
        ),
        offer.withdraw_rejection(caller, custody, balance) is None ==> custody >= offer.amount
            && offer.after_withdraw(caller, custody, balance).funded_by(
            (custody - offer.amount) as nat,
        ),
        offer.withdraw_rejection(caller, custody, balance) is Some ==> offer.after_withdraw(
            caller,
            custody,
            balance,
        ).funded_by(custody),
{
}

/// The whole lifecycle goes through. Where a creation is not rejected, a
/// receiver other than the creator can accept the new offer, the creator can
/// then approve it, and the receiver, given a balance with room for the
/// amount, can then withdraw from the custody that the creation raised; that
/// leaves a valid, withdrawn offer with the terms it was created with, and a
/// further withdrawal is rejected as already withdrawn.
pub proof fn law_lifecycle_completes(
    creator: Pubkey,
    receiver: Pubkey,
    bump: u8,
    amount: nat,
    id: Seq<char>,
    deliverables: Seq<char>,
    category: Seq<char>,
    description: Seq<char>,
    available: nat,
    storage_cost: nat,
    custody: nat,
    balance: nat,
)
    requires
        receiver != creator,
        balance + amount <= u64::MAX,
        create_rejection(
            id,
            deliverables,
            category,
            description,
            amount,
            available,
            storage_cost,
            custody,
        ) is None,
    ensures
        ({
            let fresh = created(creator, bump, amount, id, deliverables, category, description);
            let accepted = fresh.accepted_by(receiver);
            let completed = accepted.approved();
            let withdrawn = completed.paid_out();
            &&& fresh.accept_rejection(receiver) is None
            &&& accepted.approve_rejection(creator) is None
            &&& completed.withdraw_rejection(receiver, custody + amount, balance) is None
            &&& withdrawn.withdraw_rejection(receiver, custody, balance + amount) == Some(
                CoreErrorCode::OfferAlreadyWithdrawn,
            )
            &&& withdrawn.is_valid()
            &&& withdrawn.stage() == Stage::Withdrawn
            &&& withdrawn.receiver == Some(receiver)
            &&& fresh.same_terms(withdrawn)
        }),
{
}

/// Each action rejects for its own kinds of reason only. A creation is
/// rejected for its inputs or for its funds, never for who calls; an
/// acceptance or an approval for who calls or for the stage of the offer,
/// never for funds; a withdrawal for any of these but its inputs, of which
/// it has none. Whether a creation is rejected for its inputs, and under
/// which name, does not depend on any balance.
pub proof fn law_rejections_by_class(
    offer: OfferView,
    caller: Pubkey,
    custody: nat,
    balance: nat,
    id: Seq<char>,
    deliverables: Seq<char>,
    category: Seq<char>,
    description: Seq<char>,
    amount: nat,
    available: nat,
    storage_cost: nat,
    other_available: nat,
    other_storage_cost: nat,
    other_custody: nat,
)
    ensures
        create_rejection(
            id,
            deliverables,
            category,
            description,
            amount,
            available,
            storage_cost,
            custody,
        ) matches Some(e) ==> e.class_spec() == ErrorClass::Validation || e.class_spec()
            == ErrorClass::Resource,
        create_rejection(
            id,
            deliverables,
            category,
            description,
            amount,
            available,
            storage_cost,
            custody,
        ) matches Some(e) ==> (e.class_spec() == ErrorClass::Validation ==> create_rejection(
            id,
            deliverables,
            category,
            description,
            amount,
            other_available,
            other_storage_cost,
            other_custody,
        ) == Some(e)),
        offer.accept_rejection(caller) matches Some(e) ==> e.class_spec()
            == ErrorClass::Authorization || e.class_spec() == ErrorClass::StatePrecondition,
        offer.approve_rejection(caller) matches Some(e) ==> e.class_spec()
            == ErrorClass::Authorization || e.class_spec() == ErrorClass::StatePrecondition,
        offer.withdraw_rejection(caller, custody, balance) matches Some(e) ==> e.class_spec()
            != ErrorClass::Validation,
{
}

/// No text takes more than four bytes a character when it is stored.
pub proof fn law_four_bytes_a_character(text: Seq<char>)
    ensures
        encode_utf8(text).len() <= 4 * text.len(),
    decreases text.len(),
{
    if text.len() > 0 {
        law_four_bytes_a_character(text.drop_first());
    }
}

/// The stored texts of a valid offer fit the bytes set aside for them, and
/// the record length is the sum of its parts.
pub proof fn law_texts_fit_their_slots(offer: OfferView)
    requires
        offer.is_valid(),
    ensures
        encode_utf8(offer.id).len() <= MAX_ID_LENGTH,
        encode_utf8(offer.deliverables).len() <= MAX_DELIVERABLES_LENGTH,
        encode_utf8(offer.category).len() <= MAX_CATEGORY_LENGTH,
        encode_utf8(offer.description).len() <= MAX_DESCRIPTION_LENGTH,
        Offer::LEN == 8 + 32 + 33 + 8 + 3 + 1 + MAX_ID_LENGTH + MAX_DELIVERABLES_LENGTH
            + MAX_CATEGORY_LENGTH + MAX_DESCRIPTION_LENGTH,
        Offer::LEN == 1645,
{
    law_four_bytes_a_character(offer.id);
    law_four_bytes_a_character(offer.deliverables);
    law_four_bytes_a_character(offer.category);
    law_four_bytes_a_character(offer.description);
}

} // verus!
