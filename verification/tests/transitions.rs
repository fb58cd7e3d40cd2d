use anchor_lang::prelude::Pubkey;
use escrow::actions::{
    accept_offer, approve_offer_completion, withdraw_offer, AcceptOffer, ApproveOfferCompletion,
    WithdrawOffer,
};
use escrow::error::CoreErrorCode;
use escrow::offer::{Offer, Stage};

fn creator() -> Pubkey {
    Pubkey::new_from_array([1; 32])
}

fn receiver() -> Pubkey {
    Pubkey::new_from_array([2; 32])
}

fn stranger() -> Pubkey {
    let mut bytes = [2; 32];
    bytes[31] = 3;
    Pubkey::new_from_array(bytes)
}

fn offer(receiver: Option<Pubkey>, accepted: bool, completed: bool, withdrawn: bool) -> Offer {
    Offer {
        creator: creator(),
        receiver,
        amount: 750,
        accepted,
        completed,
        withdrawn,
        id: "job7".to_string(),
        bump: 255,
        deliverables: "report".to_string(),
        category: "writing".to_string(),
        description: "ten pages".to_string(),
    }
}

fn fresh() -> Offer {
    offer(None, false, false, false)
}

fn accepted() -> Offer {
    offer(Some(receiver()), true, false, false)
}

fn completed() -> Offer {
    offer(Some(receiver()), true, true, false)
}

fn withdrawn() -> Offer {
    offer(Some(receiver()), true, true, true)
}

#[test]
fn acceptance_sets_the_flag_and_the_receiver_only() {
    let mut ctx = AcceptOffer { offer: fresh(), receiver: receiver() };
    assert_eq!(accept_offer(&mut ctx), Ok(()));
    assert_eq!(ctx.offer, accepted());
    assert_eq!(ctx.receiver, receiver());
}

#[test]
fn keys_that_differ_in_one_byte_are_different_callers() {
    let mut ctx = AcceptOffer { offer: fresh(), receiver: stranger() };
    assert_eq!(accept_offer(&mut ctx), Ok(()));
    assert_eq!(ctx.offer.receiver, Some(stranger()));
    let mut ctx = WithdrawOffer {
        offer: completed(),
        custody: 750,
        receiver: stranger(),
        receiver_balance: 0,
    };
    assert_eq!(
        withdraw_offer(&mut ctx),
        Err(CoreErrorCode::OnlyApprovedReceiverCanReceivePayment)
    );
}

#[test]
fn acceptance_of_an_offer_with_a_receiver_but_no_flag_is_already_accepted() {
    let stale = offer(Some(receiver()), false, false, false);
    let mut ctx = AcceptOffer { offer: stale.clone(), receiver: stranger() };
    assert_eq!(accept_offer(&mut ctx), Err(CoreErrorCode::OfferAlreadyAccepted));
    assert_eq!(ctx.offer, stale);
}

#[test]
fn acceptance_of_a_completed_offer_without_receiver_is_already_approved() {
    let odd = offer(None, false, true, false);
    let mut ctx = AcceptOffer { offer: odd.clone(), receiver: receiver() };
    assert_eq!(accept_offer(&mut ctx), Err(CoreErrorCode::OfferAlreadyApprovedAsCompleted));
    assert_eq!(ctx.offer, odd);
}

#[test]
fn acceptance_tests_the_caller_before_the_state() {
    for state in [accepted(), completed(), withdrawn(), offer(None, false, true, false)] {
        let mut ctx = AcceptOffer { offer: state.clone(), receiver: creator() };
        assert_eq!(accept_offer(&mut ctx), Err(CoreErrorCode::OfferCreatorCannotAcceptOffer));
        assert_eq!(ctx.offer, state);
    }
    for state in [accepted(), completed(), withdrawn()] {
        let mut ctx = AcceptOffer { offer: state.clone(), receiver: stranger() };
        assert_eq!(accept_offer(&mut ctx), Err(CoreErrorCode::OfferAlreadyAccepted));
        assert_eq!(ctx.offer, state);
    }
}

#[test]
fn approval_sets_the_completed_flag_only() {
    let mut ctx = ApproveOfferCompletion { offer: accepted(), creator: creator() };
    assert_eq!(approve_offer_completion(&mut ctx), Ok(()));
    assert_eq!(ctx.offer, completed());
    assert_eq!(ctx.creator, creator());
}

#[test]
fn approval_by_the_receiver_is_unauthorized() {
    let mut ctx = ApproveOfferCompletion { offer: accepted(), creator: receiver() };
    assert_eq!(
        approve_offer_completion(&mut ctx),
        Err(CoreErrorCode::OnlyOfferCreatorCanApproveOffer)
    );
    assert_eq!(ctx.offer, accepted());
}

#[test]
fn second_approval_is_already_approved() {
    for state in [completed(), withdrawn(), offer(None, false, true, false)] {
        let mut ctx = ApproveOfferCompletion { offer: state.clone(), creator: creator() };
        assert_eq!(
            approve_offer_completion(&mut ctx),
            Err(CoreErrorCode::OfferAlreadyApprovedAsCompleted)
        );
        assert_eq!(ctx.offer, state);
    }
}

#[test]
fn approval_of_an_offer_nobody_accepted_is_not_accepted() {
    for state in [fresh(), offer(Some(receiver()), false, false, false)] {
        let mut ctx = ApproveOfferCompletion { offer: state.clone(), creator: creator() };
        assert_eq!(approve_offer_completion(&mut ctx), Err(CoreErrorCode::OfferNotAccepted));
        assert_eq!(ctx.offer, state);
        assert!(!ctx.offer.completed);
    }
}

#[test]
fn approval_of_an_accepted_offer_without_receiver_has_no_receiver_attached() {
    let odd = offer(None, true, false, false);
    let mut ctx = ApproveOfferCompletion { offer: odd.clone(), creator: creator() };
    assert_eq!(approve_offer_completion(&mut ctx), Err(CoreErrorCode::NoReceiverAttached));
    assert_eq!(ctx.offer, odd);
}

#[test]
fn withdrawal_moves_the_whole_amount_and_sets_the_flag() {
    let mut ctx = WithdrawOffer {
        offer: completed(),
        custody: 2_000,
        receiver: receiver(),
        receiver_balance: 40,
    };
    assert_eq!(withdraw_offer(&mut ctx), Ok(()));
    assert_eq!(ctx.offer, withdrawn());
    assert_eq!(ctx.custody, 1_250);
    assert_eq!(ctx.receiver_balance, 790);
    assert_eq!(ctx.receiver, receiver());
}

#[test]
fn withdrawal_by_anyone_but_the_receiver_is_refused() {
    for caller in [creator(), stranger()] {
        let mut ctx = WithdrawOffer {
            offer: completed(),
            custody: 750,
            receiver: caller,
            receiver_balance: 5,
        };
        assert_eq!(
            withdraw_offer(&mut ctx),
            Err(CoreErrorCode::OnlyApprovedReceiverCanReceivePayment)
        );
        assert_eq!(ctx.offer, completed());
        assert_eq!(ctx.custody, 750);
        assert_eq!(ctx.receiver_balance, 5);
    }
}

#[test]
fn withdrawal_of_a_completed_offer_without_receiver_is_refused() {
    let odd = offer(None, true, true, false);
    let mut ctx =
        WithdrawOffer { offer: odd.clone(), custody: 750, receiver: receiver(), receiver_balance: 5 };
    assert_eq!(
        withdraw_offer(&mut ctx),
        Err(CoreErrorCode::OnlyApprovedReceiverCanReceivePayment)
    );
    assert_eq!(ctx.offer, odd);
}

#[test]
fn second_withdrawal_is_already_withdrawn() {
    let mut ctx = WithdrawOffer {
        offer: withdrawn(),
        custody: 750,
        receiver: receiver(),
        receiver_balance: 5,
    };
    assert_eq!(withdraw_offer(&mut ctx), Err(CoreErrorCode::OfferAlreadyWithdrawn));
    assert_eq!(ctx.offer, withdrawn());
    assert_eq!(ctx.custody, 750);
    assert_eq!(ctx.receiver_balance, 5);
}

#[test]
fn withdrawal_tests_the_caller_before_the_withdrawn_flag() {
    let mut ctx = WithdrawOffer {
        offer: withdrawn(),
        custody: 750,
        receiver: stranger(),
        receiver_balance: 5,
    };
    assert_eq!(
        withdraw_offer(&mut ctx),
        Err(CoreErrorCode::OnlyApprovedReceiverCanReceivePayment)
    );
}

#[test]
fn withdrawal_from_short_custody_is_insufficient_funds() {
    let mut ctx = WithdrawOffer {
        offer: completed(),
        custody: 749,
        receiver: receiver(),
        receiver_balance: 5,
    };
    assert_eq!(withdraw_offer(&mut ctx), Err(CoreErrorCode::InsufficientFunds));
    assert_eq!(ctx.offer, completed());
    assert!(!ctx.offer.withdrawn);
    assert_eq!(ctx.custody, 749);
    assert_eq!(ctx.receiver_balance, 5);
}

#[test]
fn withdrawal_into_a_balance_without_room_fails_and_changes_nothing() {
    for balance in [u64::MAX, u64::MAX - 749] {
        let mut ctx = WithdrawOffer {
            offer: completed(),
            custody: 750,
            receiver: receiver(),
            receiver_balance: balance,
        };
        assert_eq!(withdraw_offer(&mut ctx), Err(CoreErrorCode::LedgerTransferFailed));
        assert_eq!(ctx.offer, completed());
        assert!(!ctx.offer.withdrawn);
        assert_eq!(ctx.custody, 750);
        assert_eq!(ctx.receiver_balance, balance);
    }
}

#[test]
fn withdrawal_tests_custody_before_the_room_in_the_balance() {
    let mut ctx = WithdrawOffer {
        offer: completed(),
        custody: 749,
        receiver: receiver(),
        receiver_balance: u64::MAX,
    };
    assert_eq!(withdraw_offer(&mut ctx), Err(CoreErrorCode::InsufficientFunds));
    assert_eq!(ctx.custody, 749);
    assert_eq!(ctx.receiver_balance, u64::MAX);
}

#[test]
fn withdrawal_tests_the_offer_and_the_caller_before_the_funds() {
    let mut early = WithdrawOffer {
        offer: accepted(),
        custody: 0,
        receiver: receiver(),
        receiver_balance: u64::MAX,
    };
    assert_eq!(withdraw_offer(&mut early), Err(CoreErrorCode::OfferNotCompleted));
    let mut wrong = WithdrawOffer {
        offer: completed(),
        custody: 0,
        receiver: stranger(),
        receiver_balance: u64::MAX,
    };
    assert_eq!(
        withdraw_offer(&mut wrong),
        Err(CoreErrorCode::OnlyApprovedReceiverCanReceivePayment)
    );
    let mut late = WithdrawOffer {
        offer: withdrawn(),
        custody: 0,
        receiver: receiver(),
        receiver_balance: u64::MAX,
    };
    assert_eq!(withdraw_offer(&mut late), Err(CoreErrorCode::OfferAlreadyWithdrawn));
    assert_eq!(late.receiver_balance, u64::MAX);
}

#[test]
fn withdrawal_can_fill_a_balance_to_the_brim() {
    let mut ctx = WithdrawOffer {
        offer: completed(),
        custody: 750,
        receiver: receiver(),
        receiver_balance: u64::MAX - 750,
    };
    assert_eq!(withdraw_offer(&mut ctx), Ok(()));
    assert_eq!(ctx.receiver_balance, u64::MAX);
    assert_eq!(ctx.custody, 0);
}

#[test]
fn stage_is_the_furthest_flag() {
    assert_eq!(fresh().stage(), Stage::Created);
    assert_eq!(accepted().stage(), Stage::Accepted);
    assert_eq!(completed().stage(), Stage::Completed);
    assert_eq!(withdrawn().stage(), Stage::Withdrawn);
    assert_eq!(offer(None, false, true, false).stage(), Stage::Completed);
    assert_eq!(offer(None, false, false, true).stage(), Stage::Withdrawn);
}

#[test]
fn clone_is_an_equal_record() {
    let record = completed();
    let copy = record.clone();
    assert_eq!(copy, record);
    assert_eq!(copy.id, "job7");
    assert_eq!(copy.receiver, Some(receiver()));
}
