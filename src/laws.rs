use vstd::prelude::*;

use crate::accounts::{
    is_taker, AcceptChallenge, ApproveAcceptorWager, CancelAfterAcceptor, CancelBeforeAcceptor,
    DeclineAcceptorWager, RevealWinner,
};
use crate::cancellation::{
    cancel_after_effects, cancel_after_error, cancel_before_effects, cancel_before_error,
};
use crate::challenge::{moved, Challenge, Effect, ErrorCode};
use crate::keys::{unset_key, Pubkey};
use crate::lifecycle::{accept_error, accepted, approve_error, decline_effects, decline_error};
use crate::settlement::{
    oracle_fulfilled, reveal_effects, reveal_error, winner_of, Party, RevealPolicy,
};

verus! {

/// The taker accounts of the winner named by the first random byte.
pub open spec fn winner_takers(a: RevealWinner) -> Set<Pubkey> {
    if winner_of(a.requester.random[0]) == Party::Initiator {
        set![a.initiator_own_tokens_taker.key, a.initiator_other_tokens_taker.key]
    } else {
        set![a.acceptor_own_tokens_taker.key, a.acceptor_other_tokens_taker.key]
    }
}

/// Whether every transfer in `effects` is signed by `record`.
pub open spec fn transfers_signed_by(effects: Seq<Effect>, record: Pubkey) -> bool {
    forall|i: int|
        0 <= i < effects.len() ==> match #[trigger] effects[i] {
            Effect::Transfer { authority, .. } => authority == record,
            _ => true,
        }
}

/// Escrowed funds leave a vault only under the wager record's own signature:
/// every transfer that declining, settling or cancelling orders is signed by
/// the record.
pub proof fn lemma_vaults_drained_only_by_record(
    c: Challenge,
    decline: DeclineAcceptorWager,
    reveal: RevealWinner,
    cancel_before: CancelBeforeAcceptor,
    cancel_after: CancelAfterAcceptor,
)
    ensures
        transfers_signed_by(decline_effects(c, decline), decline.challenge),
        transfers_signed_by(reveal_effects(c, reveal), reveal.challenge),
        transfers_signed_by(cancel_before_effects(c, cancel_before), cancel_before.challenge),
        transfers_signed_by(cancel_after_effects(c, cancel_after), cancel_after.challenge),
{
}

/// Settlement creates and destroys no value: it moves out of the two vaults
/// exactly the two recorded stakes, and all of it lands in the winner's taker
/// accounts.
pub proof fn lemma_reveal_conserves_stakes(c: Challenge, a: RevealWinner, policy: RevealPolicy)
    requires
        reveal_error(c, a, policy) is None,
    ensures
        moved(reveal_effects(c, a), Set::full(), Set::full()) == c.initiator_wager_token_amount
            + c.acceptor_wager_token_amount,
        moved(
            reveal_effects(c, a),
            set![c.initiator_tokens_vault, c.acceptor_tokens_vault],
            Set::full(),
        ) == c.initiator_wager_token_amount + c.acceptor_wager_token_amount,
        moved(reveal_effects(c, a), Set::full(), winner_takers(a))
            == c.initiator_wager_token_amount + c.acceptor_wager_token_amount,
{
    reveal_with_fuel(moved, 7);
    let e = reveal_effects(c, a);
    assert(e.drop_last().drop_last().drop_last().drop_last().drop_last().drop_last().len() == 0);
}

/// Approval happens at most once: once a call succeeds, every later call fails
/// with `AlreadyApproved`, whoever makes it.
pub proof fn lemma_approve_at_most_once(
    c: Challenge,
    first: ApproveAcceptorWager,
    second: ApproveAcceptorWager,
)
    requires
        approve_error(c, first) is None,
    ensures
        approve_error(Challenge { acceptor_wager_approved: true, ..c }, second) == Some(
            ErrorCode::AlreadyApproved,
        ),
{
}

/// Settlement before the oracle has answered the wager's request always fails
/// with `OracleNotCompleted`, and a failed call moves nothing.
pub proof fn lemma_reveal_waits_for_oracle(c: Challenge, a: RevealWinner, policy: RevealPolicy)
    requires
        c.acceptor_wager_approved,
        a.requester.key == c.requester,
        !oracle_fulfilled(a),
    ensures
        reveal_error(c, a, policy) == Some(ErrorCode::OracleNotCompleted),
{
}

/// Approval is irrevocable and shuts every other exit: on an approved wager,
/// declining, both cancellations and a second approval fail with
/// `AlreadyApproved`, and accepting fails with `AlreadyAccepted`.
pub proof fn lemma_approval_is_final(
    c: Challenge,
    decline: DeclineAcceptorWager,
    cancel_before: CancelBeforeAcceptor,
    cancel_after: CancelAfterAcceptor,
    approve: ApproveAcceptorWager,
    accept: AcceptChallenge,
    amount: u64,
)
    requires
        c.wf(),
        c.acceptor_wager_approved,
    ensures
        decline_error(c, decline) == Some(ErrorCode::AlreadyApproved),
        cancel_before_error(c, cancel_before) == Some(ErrorCode::AlreadyApproved),
        cancel_after_error(c, cancel_after) == Some(ErrorCode::AlreadyApproved),
        approve_error(c, approve) == Some(ErrorCode::AlreadyApproved),
        accept_error(c, accept, amount) == Some(ErrorCode::AlreadyAccepted),
{
}

/// The winner is a function of the first random byte alone: random output
/// that shares its first byte settles the wager in the same way.
pub proof fn lemma_reveal_depends_on_first_byte(
    c: Challenge,
    a: RevealWinner,
    policy: RevealPolicy,
    other_random: Vec<u8>,
)
    requires
        reveal_error(c, a, policy) is None,
        other_random@.len() > 0,
        other_random@[0] == a.requester.random@[0],
    ensures
        ({
            let b = RevealWinner {
                requester: crate::accounts::Requester { random: other_random, ..a.requester },
                ..a
            };
            &&& reveal_error(c, b, policy) is None
            &&& reveal_effects(c, b) == reveal_effects(c, a)
        }),
{
}

/// Of two acceptances of one wager, at most one succeeds: after the first, the
/// second fails with `AlreadyAccepted`.
pub proof fn lemma_single_acceptance(
    c: Challenge,
    first: AcceptChallenge,
    first_amount: u64,
    second: AcceptChallenge,
    second_amount: u64,
)
    requires
        accept_error(c, first, first_amount) is None,
    ensures
        accept_error(accepted(c, first, first_amount), second, second_amount) == Some(
            ErrorCode::AlreadyAccepted,
        ),
{
}

/// Declining reopens the wager: the initiator's side of the record is kept,
/// no acceptor remains, and any acceptor with a positive stake that its own
/// source covers, in a vault apart from the initiator's, is then accepted.
pub proof fn lemma_decline_reopens(
    c: Challenge,
    decline: DeclineAcceptorWager,
    accept: AcceptChallenge,
    amount: u64,
)
    requires
        c.wf(),
        decline_error(c, decline) is None,
    ensures
        c.without_acceptor().wf(),
        !c.without_acceptor().is_accepted(),
        c.without_acceptor().initiator == c.initiator,
        c.without_acceptor().initiator_tokens_mint == c.initiator_tokens_mint,
        c.without_acceptor().initiator_tokens_vault == c.initiator_tokens_vault,
        c.without_acceptor().initiator_wager_token_amount == c.initiator_wager_token_amount,
        c.without_acceptor().requester == c.requester,
        c.without_acceptor().bump == c.bump,
        ({
            &&& accept.acceptor != unset_key()
            &&& is_taker(accept.acceptor_tokens_source, accept.acceptor, accept.acceptor_tokens_mint)
            &&& accept.acceptor_tokens_vault != c.initiator_tokens_vault
            &&& accept.acceptor_tokens_source.key != c.initiator_tokens_vault
            &&& 0 < amount <= accept.acceptor_tokens_source.amount
        }) ==> accept_error(c.without_acceptor(), accept, amount) is None,
{
}

/// Declining leaves the initiator's escrow alone: no tokens move out of or
/// into the initiator's vault, nothing closes it, and the oracle's request
/// record is not touched.
pub proof fn lemma_decline_keeps_initiator_escrow(c: Challenge, decline: DeclineAcceptorWager)
    requires
        c.wf(),
        decline_error(c, decline) is None,
    ensures
        moved(decline_effects(c, decline), set![c.initiator_tokens_vault], Set::full()) == 0,
        moved(decline_effects(c, decline), Set::full(), set![c.initiator_tokens_vault]) == 0,
        forall|i: int|
            0 <= i < decline_effects(c, decline).len() ==> match #[trigger] decline_effects(
                c,
                decline,
            )[i] {
                Effect::Transfer { from, to, .. } => from == c.acceptor_tokens_vault && to
                    == decline.acceptor_own_tokens_taker.key,
                Effect::CloseAccount { account, .. } => account == c.acceptor_tokens_vault,
                _ => false,
            },
{
    reveal_with_fuel(moved, 3);
    let e = decline_effects(c, decline);
    assert(e.drop_last().drop_last().len() == 0);
}

/// Cancelling an unaccepted wager touches only its escrow: the initiator's
/// stake moves from the initiator's vault to the refund account, that vault
/// closes to the initiator, and the record closes to the initiator; nothing
/// else.
pub proof fn lemma_cancel_before_touches_only_escrow(c: Challenge, a: CancelBeforeAcceptor)
    requires
        cancel_before_error(c, a) is None,
    ensures
        forall|i: int|
            0 <= i < cancel_before_effects(c, a).len() ==> match #[trigger] cancel_before_effects(
                c,
                a,
            )[i] {
                Effect::Transfer { from, to, amount, .. } => from == c.initiator_tokens_vault && to
                    == a.initiator_own_tokens_taker.key && amount == c.initiator_wager_token_amount,
                Effect::CloseAccount { account, destination, .. } => account
                    == c.initiator_tokens_vault && destination == c.initiator,
                Effect::CloseChallenge { challenge, destination } => challenge == a.challenge
                    && destination == c.initiator,
                _ => false,
            },
{
}

/// Settlement by parity: with an even first byte the initiator's own taker
/// gets the initiator's stake and the initiator's other taker the acceptor's,
/// and the acceptor's takers get nothing; with an odd one the acceptor's
/// takers get them in the same way and the initiator's get nothing.
pub proof fn lemma_reveal_pays_by_parity(c: Challenge, a: RevealWinner, policy: RevealPolicy)
    requires
        reveal_error(c, a, policy) is None,
        a.initiator_own_tokens_taker.key != a.initiator_other_tokens_taker.key,
        a.initiator_own_tokens_taker.key != a.acceptor_own_tokens_taker.key,
        a.initiator_own_tokens_taker.key != a.acceptor_other_tokens_taker.key,
        a.initiator_other_tokens_taker.key != a.acceptor_own_tokens_taker.key,
        a.initiator_other_tokens_taker.key != a.acceptor_other_tokens_taker.key,
        a.acceptor_own_tokens_taker.key != a.acceptor_other_tokens_taker.key,
    ensures
        a.requester.random[0] % 2 == 0 ==> {
            &&& moved(reveal_effects(c, a), Set::full(), set![a.initiator_own_tokens_taker.key])
                == c.initiator_wager_token_amount
            &&& moved(reveal_effects(c, a), Set::full(), set![a.initiator_other_tokens_taker.key])
                == c.acceptor_wager_token_amount
            &&& moved(
                reveal_effects(c, a),
                Set::full(),
                set![a.acceptor_own_tokens_taker.key, a.acceptor_other_tokens_taker.key],
            ) == 0
        },
        a.requester.random[0] % 2 == 1 ==> {
            &&& moved(reveal_effects(c, a), Set::full(), set![a.acceptor_other_tokens_taker.key])
                == c.initiator_wager_token_amount
            &&& moved(reveal_effects(c, a), Set::full(), set![a.acceptor_own_tokens_taker.key])
                == c.acceptor_wager_token_amount
            &&& moved(
                reveal_effects(c, a),
                Set::full(),
                set![a.initiator_own_tokens_taker.key, a.initiator_other_tokens_taker.key],
            ) == 0
        },
{
    reveal_with_fuel(moved, 7);
    let e = reveal_effects(c, a);
    assert(e.drop_last().drop_last().drop_last().drop_last().drop_last().drop_last().len() == 0);
}

} // verus!
