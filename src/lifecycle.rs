use vstd::prelude::*;

use crate::accounts::{
    is_taker, taker_matches, AcceptChallenge, ApproveAcceptorWager, DeclineAcceptorWager,
    NewChallenge,
};
use crate::challenge::{Challenge, Effect, ErrorCode};
use crate::keys::{unset_key, Pubkey};

verus! {

/// The refusal of opening a wager, checked in this order, or `None`.
pub open spec fn new_challenge_error(a: NewChallenge, amount: u64) -> Option<ErrorCode> {
    if !is_taker(a.initiator_tokens_source, a.initiator, a.initiator_tokens_mint) {
        Some(ErrorCode::IncorrectAccounts)
    } else if amount == 0 {
        Some(ErrorCode::InvalidAmount)
    } else if a.initiator_tokens_source.amount < amount {
        Some(ErrorCode::InsufficientFunds)
    } else {
        None
    }
}

/// The record of a newly opened wager: the initiator's side filled in, no
/// acceptor, nothing approved.
pub open spec fn created(a: NewChallenge, bump: u8, amount: u64) -> Challenge {
    Challenge {
        initiator: a.initiator,
        initiator_tokens_mint: a.initiator_tokens_mint,
        initiator_tokens_vault: a.initiator_tokens_vault,
        initiator_wager_token_amount: amount,
        acceptor: unset_key(),
        acceptor_tokens_mint: unset_key(),
        acceptor_tokens_vault: unset_key(),
        acceptor_wager_token_amount: 0,
        acceptor_wager_approved: false,
        requester: a.requester,
        bump,
    }
}

/// Opening a wager locks the stake in the initiator's vault and, in the same
/// transaction, hands the oracle authority from the initiator to the record.
pub open spec fn new_challenge_effects(a: NewChallenge, amount: u64) -> Seq<Effect> {
    seq![
        Effect::Transfer {
            from: a.initiator_tokens_source.key,
            to: a.initiator_tokens_vault,
            authority: a.initiator,
            amount,
        },
        Effect::TransferAuthority {
            requester: a.requester,
            authority: a.initiator,
            new_authority: a.challenge,
        },
    ]
}

/// Opens a wager with the initiator's stake of `initiator_wager_token_amount`.
pub fn new_challenge(
    accounts: &NewChallenge,
    challenge_bump: u8,
    initiator_wager_token_amount: u64,
) -> (r: Result<(Challenge, Vec<Effect>), ErrorCode>)
    ensures
        match r {
            Ok((challenge, effects)) => {
                &&& new_challenge_error(*accounts, initiator_wager_token_amount) is None
                &&& challenge == created(*accounts, challenge_bump, initiator_wager_token_amount)
                &&& challenge.wf()
                &&& effects@ == new_challenge_effects(*accounts, initiator_wager_token_amount)
            },
            Err(e) => new_challenge_error(*accounts, initiator_wager_token_amount) == Some(e),
        },
{
    let source = &accounts.initiator_tokens_source;
    if !taker_matches(source, accounts.initiator, accounts.initiator_tokens_mint) {
        return Err(ErrorCode::IncorrectAccounts);
    }
    if initiator_wager_token_amount == 0 {
        return Err(ErrorCode::InvalidAmount);
    }
    if source.amount < initiator_wager_token_amount {
        return Err(ErrorCode::InsufficientFunds);
    }
    let challenge = Challenge {
        initiator: accounts.initiator,
        initiator_tokens_mint: accounts.initiator_tokens_mint,
        initiator_tokens_vault: accounts.initiator_tokens_vault,
        initiator_wager_token_amount,
        acceptor: Pubkey::unset(),
        acceptor_tokens_mint: Pubkey::unset(),
        acceptor_tokens_vault: Pubkey::unset(),
        acceptor_wager_token_amount: 0,
        acceptor_wager_approved: false,
        requester: accounts.requester,
        bump: challenge_bump,
    };
    let mut effects: Vec<Effect> = Vec::new();
    effects.push(
        Effect::Transfer {
            from: source.key,
            to: accounts.initiator_tokens_vault,
            authority: accounts.initiator,
            amount: initiator_wager_token_amount,
        },
    );
    effects.push(
        Effect::TransferAuthority {
            requester: accounts.requester,
            authority: accounts.initiator,
            new_authority: accounts.challenge,
        },
    );
    Ok((challenge, effects))
}

/// The refusal of accepting a wager, checked in this order, or `None`.
pub open spec fn accept_error(c: Challenge, a: AcceptChallenge, amount: u64) -> Option<ErrorCode> {
    if c.is_accepted() {
        Some(ErrorCode::AlreadyAccepted)
    } else if a.acceptor == unset_key() {
        Some(ErrorCode::Unauthorized)
    } else if !is_taker(a.acceptor_tokens_source, a.acceptor, a.acceptor_tokens_mint)
        || a.acceptor_tokens_vault == c.initiator_tokens_vault || a.acceptor_tokens_source.key
        == c.initiator_tokens_vault {
        // the initiator's escrow is neither the acceptor's vault nor its source
        Some(ErrorCode::IncorrectAccounts)
    } else if amount == 0 {
        Some(ErrorCode::InvalidAmount)
    } else if a.acceptor_tokens_source.amount < amount {
        Some(ErrorCode::InsufficientFunds)
    } else {
        None
    }
}

/// The record once the acceptor's side is filled in.
pub open spec fn accepted(c: Challenge, a: AcceptChallenge, amount: u64) -> Challenge {
    Challenge {
        acceptor: a.acceptor,
        acceptor_tokens_mint: a.acceptor_tokens_mint,
        acceptor_tokens_vault: a.acceptor_tokens_vault,
        acceptor_wager_token_amount: amount,
        ..c
    }
}

/// Accepting locks the acceptor's stake in the acceptor's vault.
pub open spec fn accept_effects(a: AcceptChallenge, amount: u64) -> Seq<Effect> {
    seq![
        Effect::Transfer {
            from: a.acceptor_tokens_source.key,
            to: a.acceptor_tokens_vault,
            authority: a.acceptor,
            amount,
        },
    ]
}

/// Takes the open side of a wager with a stake of `acceptor_wager_token_amount`.
pub fn accept_challenge(
    challenge: &mut Challenge,
    accounts: &AcceptChallenge,
    acceptor_wager_token_amount: u64,
) -> (r: Result<Vec<Effect>, ErrorCode>)
    ensures
        match r {
            Ok(effects) => {
                &&& accept_error(*old(challenge), *accounts, acceptor_wager_token_amount) is None
                &&& *final(challenge) == accepted(
                    *old(challenge),
                    *accounts,
                    acceptor_wager_token_amount,
                )
                &&& effects@ == accept_effects(*accounts, acceptor_wager_token_amount)
            },
            Err(e) => {
                &&& accept_error(*old(challenge), *accounts, acceptor_wager_token_amount) == Some(
                    e,
                )
                &&& *final(challenge) == *old(challenge)
            },
        },
        old(challenge).wf() ==> final(challenge).wf(),
{
    if !challenge.acceptor.is_unset() {
        return Err(ErrorCode::AlreadyAccepted);
    }
    if accounts.acceptor.is_unset() {
        return Err(ErrorCode::Unauthorized);
    }
    let source = &accounts.acceptor_tokens_source;
    if !taker_matches(source, accounts.acceptor, accounts.acceptor_tokens_mint)
        || accounts.acceptor_tokens_vault == challenge.initiator_tokens_vault || source.key
        == challenge.initiator_tokens_vault {
        return Err(ErrorCode::IncorrectAccounts);
    }
    if acceptor_wager_token_amount == 0 {
        return Err(ErrorCode::InvalidAmount);
    }
    if source.amount < acceptor_wager_token_amount {
        return Err(ErrorCode::InsufficientFunds);
    }
    challenge.acceptor = accounts.acceptor;
    challenge.acceptor_tokens_mint = accounts.acceptor_tokens_mint;
    challenge.acceptor_tokens_vault = accounts.acceptor_tokens_vault;
    challenge.acceptor_wager_token_amount = acceptor_wager_token_amount;
    let mut effects: Vec<Effect> = Vec::new();
    effects.push(
        Effect::Transfer {
            from: source.key,
            to: accounts.acceptor_tokens_vault,
            authority: accounts.acceptor,
            amount: acceptor_wager_token_amount,
        },
    );
    Ok(effects)
}

/// The refusal of approving the acceptor's wager, checked in this order, or
/// `None`. A wager already approved is refused first, whoever calls.
pub open spec fn approve_error(c: Challenge, a: ApproveAcceptorWager) -> Option<ErrorCode> {
    if c.acceptor_wager_approved {
        Some(ErrorCode::AlreadyApproved)
    } else if a.initiator != c.initiator {
        Some(ErrorCode::Unauthorized)
    } else if !c.is_accepted() {
        Some(ErrorCode::NotAccepted)
    } else if a.requester != c.requester {
        Some(ErrorCode::IncorrectAccounts)
    } else {
        None
    }
}

/// Approval issues the one randomness request of the wager, signed by the record.
pub open spec fn approve_effects(c: Challenge, a: ApproveAcceptorWager) -> Seq<Effect> {
    seq![Effect::RequestRandom { requester: c.requester, oracle: a.oracle, authority: a.challenge }]
}

/// The initiator approves the acceptor's wager: the latch is set and the
/// randomness request is issued.
pub fn approve_acceptor_wager(challenge: &mut Challenge, accounts: &ApproveAcceptorWager) -> (r:
    Result<Vec<Effect>, ErrorCode>)
    ensures
        match r {
            Ok(effects) => {
                &&& approve_error(*old(challenge), *accounts) is None
                &&& *final(challenge) == (Challenge {
                    acceptor_wager_approved: true,
                    ..*old(challenge)
                })
                &&& effects@ == approve_effects(*old(challenge), *accounts)
            },
            Err(e) => {
                &&& approve_error(*old(challenge), *accounts) == Some(e)
                &&& *final(challenge) == *old(challenge)
            },
        },
        old(challenge).wf() ==> final(challenge).wf(),
{
    if challenge.acceptor_wager_approved {
        return Err(ErrorCode::AlreadyApproved);
    }
    if accounts.initiator != challenge.initiator {
        return Err(ErrorCode::Unauthorized);
    }
    if challenge.acceptor.is_unset() {
        return Err(ErrorCode::NotAccepted);
    }
    if accounts.requester != challenge.requester {
        return Err(ErrorCode::IncorrectAccounts);
    }
    challenge.acceptor_wager_approved = true;
    let mut effects: Vec<Effect> = Vec::new();
    effects.push(
        Effect::RequestRandom {
            requester: challenge.requester,
            oracle: accounts.oracle,
            authority: accounts.challenge,
        },
    );
    Ok(effects)
}

/// The refusal of declining the acceptor's wager, checked in this order, or
/// `None`. A wager already approved is refused first, whoever calls.
pub open spec fn decline_error(c: Challenge, a: DeclineAcceptorWager) -> Option<ErrorCode> {
    if c.acceptor_wager_approved {
        Some(ErrorCode::AlreadyApproved)
    } else if !c.is_accepted() {
        Some(ErrorCode::NotAccepted)
    } else if a.caller != c.initiator && a.caller != c.acceptor {
        Some(ErrorCode::Unauthorized)
    } else if !(a.acceptor == c.acceptor && a.acceptor_tokens_vault == c.acceptor_tokens_vault
        && is_taker(a.acceptor_own_tokens_taker, c.acceptor, c.acceptor_tokens_mint)
        && a.acceptor_own_tokens_taker.key != c.initiator_tokens_vault) {
        Some(ErrorCode::IncorrectAccounts)
    } else {
        None
    }
}

/// Declining refunds the acceptor's stake and closes the acceptor's vault.
pub open spec fn decline_effects(c: Challenge, a: DeclineAcceptorWager) -> Seq<Effect> {
    seq![
        Effect::Transfer {
            from: c.acceptor_tokens_vault,
            to: a.acceptor_own_tokens_taker.key,
            authority: a.challenge,
            amount: c.acceptor_wager_token_amount,
        },
        Effect::CloseAccount {
            account: c.acceptor_tokens_vault,
            destination: c.acceptor,
            authority: a.challenge,
        },
    ]
}

/// Either party turns the acceptor away before approval: the acceptor is
/// refunded and the wager is open for acceptance again.
pub fn decline_acceptor_wager(challenge: &mut Challenge, accounts: &DeclineAcceptorWager) -> (r:
    Result<Vec<Effect>, ErrorCode>)
    ensures
        match r {
            Ok(effects) => {
                &&& decline_error(*old(challenge), *accounts) is None
                &&& *final(challenge) == old(challenge).without_acceptor()
                &&& effects@ == decline_effects(*old(challenge), *accounts)
            },
            Err(e) => {
                &&& decline_error(*old(challenge), *accounts) == Some(e)
                &&& *final(challenge) == *old(challenge)
            },
        },
        old(challenge).wf() ==> final(challenge).wf(),
{
    if challenge.acceptor_wager_approved {
        return Err(ErrorCode::AlreadyApproved);
    }
    if challenge.acceptor.is_unset() {
        return Err(ErrorCode::NotAccepted);
    }
    if accounts.caller != challenge.initiator && accounts.caller != challenge.acceptor {
        return Err(ErrorCode::Unauthorized);
    }
    if !(accounts.acceptor == challenge.acceptor && accounts.acceptor_tokens_vault
        == challenge.acceptor_tokens_vault && taker_matches(
        &accounts.acceptor_own_tokens_taker,
        challenge.acceptor,
        challenge.acceptor_tokens_mint,
    ) && accounts.acceptor_own_tokens_taker.key != challenge.initiator_tokens_vault) {
        return Err(ErrorCode::IncorrectAccounts);
    }
    let mut effects: Vec<Effect> = Vec::new();
    effects.push(
        Effect::Transfer {
            from: challenge.acceptor_tokens_vault,
            to: accounts.acceptor_own_tokens_taker.key,
            authority: accounts.challenge,
            amount: challenge.acceptor_wager_token_amount,
        },
    );
    effects.push(
        Effect::CloseAccount {
            account: challenge.acceptor_tokens_vault,
            destination: challenge.acceptor,
            authority: accounts.challenge,
        },
    );
    challenge.acceptor_wager_approved = false;
    challenge.acceptor = Pubkey::unset();
    challenge.acceptor_tokens_mint = Pubkey::unset();
    challenge.acceptor_tokens_vault = Pubkey::unset();
    challenge.acceptor_wager_token_amount = 0;
    Ok(effects)
}

} // verus!
