use vstd::prelude::*;

use crate::accounts::{is_taker, taker_matches, RevealWinner};
use crate::challenge::{Challenge, Effect, ErrorCode};

verus! {

/// One side of a wager.
#[derive(Clone, Copy, Debug, PartialEq, Eq, Structural)]
pub enum Party {
    Initiator,
    Acceptor,
}

/// Who may trigger settlement.
#[derive(Clone, Copy, Debug, PartialEq, Eq, Structural)]
pub enum RevealPolicy {
    /// Any caller.
    Anyone,
    /// The initiator or the acceptor only.
    PartiesOnly,
}

/// The winner for the first byte of the oracle's output: an even byte for the
/// initiator, an odd one for the acceptor.
pub open spec fn winner_of(first_byte: u8) -> Party {
    if first_byte % 2 == 0 {
        Party::Initiator
    } else {
        Party::Acceptor
    }
}

/// The winner for the first byte of the oracle's output.
pub fn winner(first_byte: u8) -> (r: Party)
    ensures
        r == winner_of(first_byte),
{
    if first_byte % 2 == 0 {
        Party::Initiator
    } else {
        Party::Acceptor
    }
}

/// Whether the settlement accounts are the ones the record names: both parties,
/// both vaults, and four taker accounts, each owned by its party and holding
/// the mint of the stake it receives.
pub open spec fn reveal_accounts_match(c: Challenge, a: RevealWinner) -> bool {
    &&& a.initiator == c.initiator
    &&& a.acceptor == c.acceptor
    &&& a.initiator_tokens_vault == c.initiator_tokens_vault
    &&& a.acceptor_tokens_vault == c.acceptor_tokens_vault
    &&& is_taker(a.acceptor_own_tokens_taker, c.acceptor, c.acceptor_tokens_mint)
    &&& is_taker(a.acceptor_other_tokens_taker, c.acceptor, c.initiator_tokens_mint)
    &&& is_taker(a.initiator_own_tokens_taker, c.initiator, c.initiator_tokens_mint)
    &&& is_taker(a.initiator_other_tokens_taker, c.initiator, c.acceptor_tokens_mint)
}

/// Whether the oracle has answered the wager's request.
pub open spec fn oracle_fulfilled(a: RevealWinner) -> bool {
    !a.requester.active_request && a.requester.random.len() > 0
}

/// The refusal of settlement, checked in this order, or `None`.
pub open spec fn reveal_error(c: Challenge, a: RevealWinner, policy: RevealPolicy) -> Option<
    ErrorCode,
> {
    if !c.acceptor_wager_approved {
        Some(ErrorCode::NotApproved)
    } else if a.requester.key != c.requester {
        Some(ErrorCode::IncorrectAccounts)
    } else if !oracle_fulfilled(a) {
        Some(ErrorCode::OracleNotCompleted)
    } else if policy == RevealPolicy::PartiesOnly && a.caller != c.initiator && a.caller
        != c.acceptor {
        Some(ErrorCode::Unauthorized)
    } else if !reveal_accounts_match(c, a) {
        Some(ErrorCode::IncorrectAccounts)
    } else {
        None
    }
}

/// The payout of a settled wager: the initiator's vault to the winner's taker
/// for initiator tokens, the acceptor's vault to the winner's taker for
/// acceptor tokens; then both vaults closed to their owners, the oracle
/// authority handed back to the initiator, and the record closed to the
/// initiator.
pub open spec fn reveal_effects(c: Challenge, a: RevealWinner) -> Seq<Effect> {
    let initiator_wins = winner_of(a.requester.random[0]) == Party::Initiator;
    let initiator_stake_to = if initiator_wins {
        a.initiator_own_tokens_taker.key
    } else {
        a.acceptor_other_tokens_taker.key
    };
    let acceptor_stake_to = if initiator_wins {
        a.initiator_other_tokens_taker.key
    } else {
        a.acceptor_own_tokens_taker.key
    };
    seq![
        Effect::Transfer {
            from: c.initiator_tokens_vault,
            to: initiator_stake_to,
            authority: a.challenge,
            amount: c.initiator_wager_token_amount,
        },
        Effect::Transfer {
            from: c.acceptor_tokens_vault,
            to: acceptor_stake_to,
            authority: a.challenge,
            amount: c.acceptor_wager_token_amount,
        },
        Effect::CloseAccount {
            account: c.initiator_tokens_vault,
            destination: c.initiator,
            authority: a.challenge,
        },
        Effect::CloseAccount {
            account: c.acceptor_tokens_vault,
            destination: c.acceptor,
            authority: a.challenge,
        },
        Effect::TransferAuthority {
            requester: c.requester,
            authority: a.challenge,
            new_authority: c.initiator,
        },
        Effect::CloseChallenge { challenge: a.challenge, destination: c.initiator },
    ]
}

/// Settles an approved wager whose randomness request the oracle has answered:
/// the winner takes both stakes and every escrow account is closed.
pub fn reveal_winner(challenge: &Challenge, accounts: &RevealWinner, policy: RevealPolicy) -> (r:
    Result<Vec<Effect>, ErrorCode>)
    ensures
        match r {
            Ok(effects) => reveal_error(*challenge, *accounts, policy) is None && effects@
                == reveal_effects(*challenge, *accounts),
            Err(e) => reveal_error(*challenge, *accounts, policy) == Some(e),
        },
{
    if !challenge.acceptor_wager_approved {
        return Err(ErrorCode::NotApproved);
    }
    if accounts.requester.key != challenge.requester {
        return Err(ErrorCode::IncorrectAccounts);
    }
    if accounts.requester.active_request || accounts.requester.random.len() == 0 {
        return Err(ErrorCode::OracleNotCompleted);
    }
    if policy == RevealPolicy::PartiesOnly && accounts.caller != challenge.initiator
        && accounts.caller != challenge.acceptor {
        return Err(ErrorCode::Unauthorized);
    }
    if !(accounts.initiator == challenge.initiator && accounts.acceptor == challenge.acceptor
        && accounts.initiator_tokens_vault == challenge.initiator_tokens_vault
        && accounts.acceptor_tokens_vault == challenge.acceptor_tokens_vault && taker_matches(
        &accounts.acceptor_own_tokens_taker,
        challenge.acceptor,
        challenge.acceptor_tokens_mint,
    ) && taker_matches(
        &accounts.acceptor_other_tokens_taker,
        challenge.acceptor,
        challenge.initiator_tokens_mint,
    ) && taker_matches(
        &accounts.initiator_own_tokens_taker,
        challenge.initiator,
        challenge.initiator_tokens_mint,
    ) && taker_matches(
        &accounts.initiator_other_tokens_taker,
        challenge.initiator,
        challenge.acceptor_tokens_mint,
    )) {
        return Err(ErrorCode::IncorrectAccounts);
    }
    // the loser's stake goes to the winner, the winner's own stake comes back
    let (initiator_stake_to, acceptor_stake_to) = match winner(accounts.requester.random[0]) {
        Party::Initiator => (
            accounts.initiator_own_tokens_taker.key,
            accounts.initiator_other_tokens_taker.key,
        ),
        Party::Acceptor => (
            accounts.acceptor_other_tokens_taker.key,
            accounts.acceptor_own_tokens_taker.key,
        ),
    };
    let mut effects: Vec<Effect> = Vec::new();
    effects.push(
        Effect::Transfer {
            from: challenge.initiator_tokens_vault,
            to: initiator_stake_to,
            authority: accounts.challenge,
            amount: challenge.initiator_wager_token_amount,
        },
    );
    effects.push(
        Effect::Transfer {
            from: challenge.acceptor_tokens_vault,
            to: acceptor_stake_to,
            authority: accounts.challenge,
            amount: challenge.acceptor_wager_token_amount,
        },
    );
    effects.push(
        Effect::CloseAccount {
            account: challenge.initiator_tokens_vault,
            destination: challenge.initiator,
            authority: accounts.challenge,
        },
    );
    effects.push(
        Effect::CloseAccount {
            account: challenge.acceptor_tokens_vault,
            destination: challenge.acceptor,
            authority: accounts.challenge,
        },
    );
    effects.push(
        Effect::TransferAuthority {
            requester: challenge.requester,
            authority: accounts.challenge,
            new_authority: challenge.initiator,
        },
    );
    effects.push(
        Effect::CloseChallenge { challenge: accounts.challenge, destination: challenge.initiator },
    );
    Ok(effects)
}

} // verus!
