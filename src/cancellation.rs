use vstd::prelude::*;

use crate::accounts::{
    is_taker, taker_matches, CancelAfterAcceptor, CancelBeforeAcceptor,
};
use crate::challenge::{Challenge, Effect, ErrorCode};

verus! {

/// The refusal of cancelling a wager that nobody accepted, checked in this
/// order, or `None`. An approved wager is refused first, whoever calls.
pub open spec fn cancel_before_error(c: Challenge, a: CancelBeforeAcceptor) -> Option<ErrorCode> {
    if c.acceptor_wager_approved {
        Some(ErrorCode::AlreadyApproved)
    } else if a.initiator != c.initiator {
        Some(ErrorCode::Unauthorized)
    } else if c.is_accepted() {
        // the acceptor's vault has to be refunded too: the other path
        Some(ErrorCode::IncorrectAccounts)
    } else if !(a.initiator_tokens_vault == c.initiator_tokens_vault && is_taker(
        a.initiator_own_tokens_taker,
        c.initiator,
        c.initiator_tokens_mint,
    )) {
        Some(ErrorCode::IncorrectAccounts)
    } else {
        None
    }
}

/// Refunding the initiator: the stake back, the vault closed and the record
/// closed, all to the initiator.
pub open spec fn cancel_before_effects(c: Challenge, a: CancelBeforeAcceptor) -> Seq<Effect> {
    seq![
        Effect::Transfer {
            from: c.initiator_tokens_vault,
            to: a.initiator_own_tokens_taker.key,
            authority: a.challenge,
            amount: c.initiator_wager_token_amount,
        },
        Effect::CloseAccount {
            account: c.initiator_tokens_vault,
            destination: c.initiator,
            authority: a.challenge,
        },
        Effect::CloseChallenge { challenge: a.challenge, destination: c.initiator },
    ]
}

/// The initiator withdraws a wager that nobody accepted.
pub fn cancel_before_acceptor(challenge: &Challenge, accounts: &CancelBeforeAcceptor) -> (r: Result<
    Vec<Effect>,
    ErrorCode,
>)
    ensures
        match r {
            Ok(effects) => cancel_before_error(*challenge, *accounts) is None && effects@
                == cancel_before_effects(*challenge, *accounts),
            Err(e) => cancel_before_error(*challenge, *accounts) == Some(e),
        },
{
    if challenge.acceptor_wager_approved {
        return Err(ErrorCode::AlreadyApproved);
    }
    if accounts.initiator != challenge.initiator {
        return Err(ErrorCode::Unauthorized);
    }
    if !challenge.acceptor.is_unset() {
        return Err(ErrorCode::IncorrectAccounts);
    }
    if !(accounts.initiator_tokens_vault == challenge.initiator_tokens_vault && taker_matches(
        &accounts.initiator_own_tokens_taker,
        challenge.initiator,
        challenge.initiator_tokens_mint,
    )) {
        return Err(ErrorCode::IncorrectAccounts);
    }
    let mut effects: Vec<Effect> = Vec::new();
    effects.push(
        Effect::Transfer {
            from: challenge.initiator_tokens_vault,
            to: accounts.initiator_own_tokens_taker.key,
            authority: accounts.challenge,
            amount: challenge.initiator_wager_token_amount,
        },
    );
    effects.push(
        Effect::CloseAccount {
            account: challenge.initiator_tokens_vault,
            destination: challenge.initiator,
            authority: accounts.challenge,
        },
    );
    effects.push(
        Effect::CloseChallenge { challenge: accounts.challenge, destination: challenge.initiator },
    );
    Ok(effects)
}

/// The refusal of cancelling an accepted wager, checked in this order, or
/// `None`. An approved wager is refused first, whoever calls.
pub open spec fn cancel_after_error(c: Challenge, a: CancelAfterAcceptor) -> Option<ErrorCode> {
    if c.acceptor_wager_approved {
        Some(ErrorCode::AlreadyApproved)
    } else if a.initiator != c.initiator {
        Some(ErrorCode::Unauthorized)
    } else if !c.is_accepted() {
        Some(ErrorCode::NotAccepted)
    } else if !(a.initiator_tokens_vault == c.initiator_tokens_vault && is_taker(
        a.initiator_own_tokens_taker,
        c.initiator,
        c.initiator_tokens_mint,
    ) && a.acceptor == c.acceptor && a.acceptor_tokens_vault == c.acceptor_tokens_vault
        && is_taker(a.acceptor_own_tokens_taker, c.acceptor, c.acceptor_tokens_mint)) {
        Some(ErrorCode::IncorrectAccounts)
    } else {
        None
    }
}

/// Refunding both parties: each stake back to its owner and each vault closed
/// to its owner, then the record closed to the initiator.
pub open spec fn cancel_after_effects(c: Challenge, a: CancelAfterAcceptor) -> Seq<Effect> {
    seq![
        Effect::Transfer {
            from: c.initiator_tokens_vault,
            to: a.initiator_own_tokens_taker.key,
            authority: a.challenge,
            amount: c.initiator_wager_token_amount,
        },
        Effect::CloseAccount {
            account: c.initiator_tokens_vault,
            destination: c.initiator,
            authority: a.challenge,
        },
        Effect::Transfer {
            from: c.acceptor_tokens_vault,
            to: a.acceptor_own_tokens_taker.key,
            authority: a.challenge,
            amount: c.acceptor_wager_token_amount,
        },
        Effect::CloseAccount {
            account: c.acceptor_tokens_vault,
            destination: c.acceptor,
            authority: a.challenge,
        },
        Effect::CloseChallenge { challenge: a.challenge, destination: c.initiator },
    ]
}

/// The initiator withdraws an accepted wager before approving it; both parties
/// are refunded.
pub fn cancel_after_acceptor(challenge: &Challenge, accounts: &CancelAfterAcceptor) -> (r: Result<
    Vec<Effect>,
    ErrorCode,
>)
    ensures
        match r {
            Ok(effects) => cancel_after_error(*challenge, *accounts) is None && effects@
                == cancel_after_effects(*challenge, *accounts),
            Err(e) => cancel_after_error(*challenge, *accounts) == Some(e),
        },
{
    if challenge.acceptor_wager_approved {
        return Err(ErrorCode::AlreadyApproved);
    }
    if accounts.initiator != challenge.initiator {
        return Err(ErrorCode::Unauthorized);
    }
    if challenge.acceptor.is_unset() {
        return Err(ErrorCode::NotAccepted);
    }
    if !(accounts.initiator_tokens_vault == challenge.initiator_tokens_vault && taker_matches(
        &accounts.initiator_own_tokens_taker,
        challenge.initiator,
        challenge.initiator_tokens_mint,
    ) && accounts.acceptor == challenge.acceptor && accounts.acceptor_tokens_vault
        == challenge.acceptor_tokens_vault && taker_matches(
        &accounts.acceptor_own_tokens_taker,
        challenge.acceptor,
        challenge.acceptor_tokens_mint,
    )) {
        return Err(ErrorCode::IncorrectAccounts);
    }
    let mut effects: Vec<Effect> = Vec::new();
    effects.push(
        Effect::Transfer {
            from: challenge.initiator_tokens_vault,
            to: accounts.initiator_own_tokens_taker.key,
            authority: accounts.challenge,
            amount: challenge.initiator_wager_token_amount,
        },
    );
    effects.push(
        Effect::CloseAccount {
            account: challenge.initiator_tokens_vault,
            destination: challenge.initiator,
            authority: accounts.challenge,
        },
    );
    effects.push(
        Effect::Transfer {
            from: challenge.acceptor_tokens_vault,
            to: accounts.acceptor_own_tokens_taker.key,
            authority: accounts.challenge,
            amount: challenge.acceptor_wager_token_amount,
        },
    );
    effects.push(
        Effect::CloseAccount {
            account: challenge.acceptor_tokens_vault,
            destination: challenge.acceptor,
            authority: accounts.challenge,
        },
    );
    effects.push(
        Effect::CloseChallenge { challenge: accounts.challenge, destination: challenge.initiator },
    );
    Ok(effects)
}

} // verus!
