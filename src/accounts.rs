use vstd::prelude::*;

use crate::keys::Pubkey;

verus! {

/// What the protocol reads of a token account.
#[derive(Clone, Copy, Debug, PartialEq, Eq, Structural)]
pub struct TokenAccount {
    pub key: Pubkey,
    pub mint: Pubkey,
    pub owner: Pubkey,
    pub amount: u64,
}

/// What the protocol reads of the oracle's request record.
#[derive(Clone, Debug)]
pub struct Requester {
    pub key: Pubkey,
    pub authority: Pubkey,
    pub oracle: Pubkey,
    /// True from a request until the oracle publishes its answer.
    pub active_request: bool,
    /// The oracle's last published random bytes.
    pub random: Vec<u8>,
}

/// Accounts for opening a wager.
#[derive(Clone, Copy, Debug)]
pub struct NewChallenge {
    pub initiator: Pubkey,
    /// The address of the wager record being created.
    pub challenge: Pubkey,
    /// The fresh vault that will hold the initiator's stake.
    pub initiator_tokens_vault: Pubkey,
    pub initiator_tokens_mint: Pubkey,
    pub initiator_tokens_source: TokenAccount,
    pub requester: Pubkey,
}

/// Accounts for accepting a wager.
#[derive(Clone, Copy, Debug)]
pub struct AcceptChallenge {
    pub acceptor: Pubkey,
    pub challenge: Pubkey,
    /// The fresh vault that will hold the acceptor's stake.
    pub acceptor_tokens_vault: Pubkey,
    pub acceptor_tokens_mint: Pubkey,
    pub acceptor_tokens_source: TokenAccount,
}

/// Accounts for approving the acceptor's wager.
#[derive(Clone, Copy, Debug)]
pub struct ApproveAcceptorWager {
    pub initiator: Pubkey,
    pub challenge: Pubkey,
    pub requester: Pubkey,
    pub oracle: Pubkey,
}

/// Accounts for declining the acceptor's wager.
#[derive(Clone, Copy, Debug)]
pub struct DeclineAcceptorWager {
    pub caller: Pubkey,
    pub challenge: Pubkey,
    pub acceptor: Pubkey,
    pub acceptor_tokens_vault: Pubkey,
    /// Receives the acceptor's refund.
    pub acceptor_own_tokens_taker: TokenAccount,
}

/// Accounts for settling a wager.
#[derive(Clone, Debug)]
pub struct RevealWinner {
    pub caller: Pubkey,
    pub challenge: Pubkey,
    pub initiator: Pubkey,
    pub acceptor: Pubkey,
    pub initiator_tokens_vault: Pubkey,
    pub acceptor_tokens_vault: Pubkey,
    /// Receives the acceptor's own stake when the acceptor wins.
    pub acceptor_own_tokens_taker: TokenAccount,
    /// Receives the initiator's stake when the acceptor wins.
    pub acceptor_other_tokens_taker: TokenAccount,
    /// Receives the initiator's own stake when the initiator wins.
    pub initiator_own_tokens_taker: TokenAccount,
    /// Receives the acceptor's stake when the initiator wins.
    pub initiator_other_tokens_taker: TokenAccount,
    pub requester: Requester,
}

/// Accounts for cancelling a wager that nobody accepted.
#[derive(Clone, Copy, Debug)]
pub struct CancelBeforeAcceptor {
    pub initiator: Pubkey,
    pub challenge: Pubkey,
    pub initiator_tokens_vault: Pubkey,
    pub initiator_own_tokens_taker: TokenAccount,
}

/// Accounts for cancelling an accepted, unapproved wager.
#[derive(Clone, Copy, Debug)]
pub struct CancelAfterAcceptor {
    pub initiator: Pubkey,
    pub challenge: Pubkey,
    pub initiator_tokens_vault: Pubkey,
    pub initiator_own_tokens_taker: TokenAccount,
    pub acceptor: Pubkey,
    pub acceptor_tokens_vault: Pubkey,
    pub acceptor_own_tokens_taker: TokenAccount,
}

/// Whether `t` is a token account of `owner` for tokens of `mint`.
pub open spec fn is_taker(t: TokenAccount, owner: Pubkey, mint: Pubkey) -> bool {
    t.owner == owner && t.mint == mint
}

/// Whether `t` is a token account of `owner` for tokens of `mint`.
pub fn taker_matches(t: &TokenAccount, owner: Pubkey, mint: Pubkey) -> (r: bool)
    ensures
        r == is_taker(*t, owner, mint),
{
    t.owner == owner && t.mint == mint
}

} // verus!
