//! A two-party wagered coin flip held in escrow.
//!
//! Each operation of the protocol is a verified function from the wager record
//! and the accounts handed to it to the next record and the exact list of
//! effects (token transfers, account closes, oracle calls) that the host must
//! carry out atomically, in order. Nothing here moves funds itself; a refused
//! operation returns its error and leaves the record as it was.
//!
//! The lifecycle: `new_challenge` opens a wager and hands the oracle authority
//! to the record; `accept_challenge` fills the acceptor's side;
//! `approve_acceptor_wager` latches the wager and requests randomness;
//! `reveal_winner` pays both stakes to the winner. `decline_acceptor_wager`
//! sends the acceptor away before approval, and the two cancellations refund
//! everything before approval. The module `laws` states what holds across
//! these operations.

pub mod accounts;
pub mod cancellation;
pub mod challenge;
pub mod keys;
pub mod laws;
pub mod lifecycle;
pub mod settlement;

pub use accounts::{
    AcceptChallenge, ApproveAcceptorWager, CancelAfterAcceptor, CancelBeforeAcceptor,
    DeclineAcceptorWager, NewChallenge, Requester, RevealWinner, TokenAccount,
};
pub use cancellation::{cancel_after_acceptor, cancel_before_acceptor};
pub use challenge::{Challenge, Effect, ErrorCode};
pub use keys::Pubkey;
pub use lifecycle::{
    accept_challenge, approve_acceptor_wager, decline_acceptor_wager, new_challenge,
};
pub use settlement::{reveal_winner, winner, Party, RevealPolicy};
