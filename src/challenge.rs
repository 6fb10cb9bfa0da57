use vstd::prelude::*;

use crate::keys::{unset_key, Pubkey};

verus! {

/// The wager record: one per coin flip, owned by the protocol.
#[derive(Clone, Copy, Debug, PartialEq, Eq, Structural)]
pub struct Challenge {
    pub initiator: Pubkey,
    pub initiator_tokens_mint: Pubkey,
    pub initiator_tokens_vault: Pubkey,
    pub initiator_wager_token_amount: u64,
    /// The all-zero address until a counterparty accepts.
    pub acceptor: Pubkey,
    pub acceptor_tokens_mint: Pubkey,
    pub acceptor_tokens_vault: Pubkey,
    pub acceptor_wager_token_amount: u64,
    /// The latch that issues the randomness request; once set it is never cleared.
    pub acceptor_wager_approved: bool,
    /// The oracle's request record whose authority was delegated to this wager.
    pub requester: Pubkey,
    /// The derivation bump that lets the record sign for its own address.
    pub bump: u8,
}

/// Why an operation was refused. A refused operation changes nothing.
#[derive(Clone, Copy, Debug, PartialEq, Eq, Structural)]
pub enum ErrorCode {
    /// The caller lacks the role the operation needs.
    Unauthorized,
    /// The wager already has an acceptor.
    AlreadyAccepted,
    /// The acceptor's wager was already approved.
    AlreadyApproved,
    /// The wager has no acceptor yet.
    NotAccepted,
    /// The initiator has not approved the acceptor's wager.
    NotApproved,
    /// The oracle has not fulfilled the randomness request.
    OracleNotCompleted,
    /// The stake source holds less than the stake.
    InsufficientFunds,
    /// A stake of zero.
    InvalidAmount,
    /// An account handed in does not match the wager's stored references.
    IncorrectAccounts,
}

/// One step that the host carries out on the ledger, in list order, all or none.
#[derive(Clone, Copy, Debug, PartialEq, Eq, Structural)]
pub enum Effect {
    /// Move `amount` tokens between token accounts, signed by `authority`.
    Transfer { from: Pubkey, to: Pubkey, authority: Pubkey, amount: u64 },
    /// Close a token account, crediting its storage allowance to `destination`.
    CloseAccount { account: Pubkey, destination: Pubkey, authority: Pubkey },
    /// Hand the authority over an oracle request record to `new_authority`.
    TransferAuthority { requester: Pubkey, authority: Pubkey, new_authority: Pubkey },
    /// Ask the oracle for a random value, signed by `authority`.
    RequestRandom { requester: Pubkey, oracle: Pubkey, authority: Pubkey },
    /// Close the wager record, crediting its storage allowance to `destination`.
    CloseChallenge { challenge: Pubkey, destination: Pubkey },
}

impl Challenge {
    /// Whether a counterparty has accepted.
    pub open spec fn is_accepted(self) -> bool {
        self.acceptor != unset_key()
    }

    /// The record's invariant: a positive initiator stake; without an acceptor
    /// the acceptor side is all zero and nothing is approved; with one, its
    /// stake is positive and its vault is not the initiator's.
    pub open spec fn wf(self) -> bool {
        &&& self.initiator_wager_token_amount > 0
        &&& !self.is_accepted() ==> {
            &&& self.acceptor_tokens_mint == unset_key()
            &&& self.acceptor_tokens_vault == unset_key()
            &&& self.acceptor_wager_token_amount == 0
            &&& !self.acceptor_wager_approved
        }
        &&& self.is_accepted() ==> {
            &&& self.acceptor_wager_token_amount > 0
            &&& self.acceptor_tokens_vault != self.initiator_tokens_vault
        }
    }

    /// The record with every acceptor field back at zero.
    pub open spec fn without_acceptor(self) -> Challenge {
        Challenge {
            acceptor: unset_key(),
            acceptor_tokens_mint: unset_key(),
            acceptor_tokens_vault: unset_key(),
            acceptor_wager_token_amount: 0,
            acceptor_wager_approved: false,
            ..self
        }
    }
}

/// The tokens that one effect moves from an account in `from` to one in `to`.
pub open spec fn moved_by(e: Effect, from: Set<Pubkey>, to: Set<Pubkey>) -> int {
    match e {
        Effect::Transfer { from: source, to: dest, amount, .. } => if from.contains(source)
            && to.contains(dest) {
            amount as int
        } else {
            0
        },
        _ => 0,
    }
}

/// The tokens that a list of effects moves from accounts in `from` to accounts
/// in `to`.
pub open spec fn moved(effects: Seq<Effect>, from: Set<Pubkey>, to: Set<Pubkey>) -> int
    decreases effects.len(),
{
    if effects.len() == 0 {
        0
    } else {
        moved(effects.drop_last(), from, to) + moved_by(effects.last(), from, to)
    }
}

} // verus!
