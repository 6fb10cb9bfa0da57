use cross_pile::{
    accept_challenge, approve_acceptor_wager, cancel_after_acceptor, cancel_before_acceptor,
    decline_acceptor_wager, new_challenge, reveal_winner, winner, AcceptChallenge,
    ApproveAcceptorWager, CancelAfterAcceptor, CancelBeforeAcceptor, Challenge,
    DeclineAcceptorWager, Effect, ErrorCode, NewChallenge, Party, Pubkey, Requester,
    RevealPolicy, RevealWinner, TokenAccount,
};

fn key(n: u64) -> Pubkey {
    Pubkey(n, 0, 0, 0)
}

const INITIATOR: u64 = 1;
const ACCEPTOR: u64 = 2;
const CHALLENGE: u64 = 3;
const REQUESTER: u64 = 4;
const ORACLE: u64 = 5;
const MINT_I: u64 = 10;
const MINT_A: u64 = 11;
const VAULT_I: u64 = 20;
const VAULT_A: u64 = 21;
const SOURCE_I: u64 = 30;
const SOURCE_A: u64 = 31;
const I_OWN: u64 = 40;
const I_OTHER: u64 = 41;
const A_OWN: u64 = 42;
const A_OTHER: u64 = 43;
const STRANGER: u64 = 99;

fn token(k: u64, owner: u64, mint: u64, amount: u64) -> TokenAccount {
    TokenAccount { key: key(k), mint: key(mint), owner: key(owner), amount }
}

fn new_accounts(balance: u64) -> NewChallenge {
    NewChallenge {
        initiator: key(INITIATOR),
        challenge: key(CHALLENGE),
        initiator_tokens_vault: key(VAULT_I),
        initiator_tokens_mint: key(MINT_I),
        initiator_tokens_source: token(SOURCE_I, INITIATOR, MINT_I, balance),
        requester: key(REQUESTER),
    }
}

fn accept_accounts(acceptor: u64, balance: u64) -> AcceptChallenge {
    AcceptChallenge {
        acceptor: key(acceptor),
        challenge: key(CHALLENGE),
        acceptor_tokens_vault: key(VAULT_A),
        acceptor_tokens_mint: key(MINT_A),
        acceptor_tokens_source: token(SOURCE_A, acceptor, MINT_A, balance),
    }
}

fn approve_accounts(initiator: u64) -> ApproveAcceptorWager {
    ApproveAcceptorWager {
        initiator: key(initiator),
        challenge: key(CHALLENGE),
        requester: key(REQUESTER),
        oracle: key(ORACLE),
    }
}

fn decline_accounts(caller: u64) -> DeclineAcceptorWager {
    DeclineAcceptorWager {
        caller: key(caller),
        challenge: key(CHALLENGE),
        acceptor: key(ACCEPTOR),
        acceptor_tokens_vault: key(VAULT_A),
        acceptor_own_tokens_taker: token(A_OWN, ACCEPTOR, MINT_A, 0),
    }
}

fn reveal_accounts(active: bool, random: Vec<u8>) -> RevealWinner {
    RevealWinner {
        caller: key(STRANGER),
        challenge: key(CHALLENGE),
        initiator: key(INITIATOR),
        acceptor: key(ACCEPTOR),
        initiator_tokens_vault: key(VAULT_I),
        acceptor_tokens_vault: key(VAULT_A),
        acceptor_own_tokens_taker: token(A_OWN, ACCEPTOR, MINT_A, 0),
        acceptor_other_tokens_taker: token(A_OTHER, ACCEPTOR, MINT_I, 0),
        initiator_own_tokens_taker: token(I_OWN, INITIATOR, MINT_I, 0),
        initiator_other_tokens_taker: token(I_OTHER, INITIATOR, MINT_A, 0),
        requester: Requester {
            key: key(REQUESTER),
            authority: key(CHALLENGE),
            oracle: key(ORACLE),
            active_request: active,
            random,
        },
    }
}

fn cancel_before_accounts(initiator: u64) -> CancelBeforeAcceptor {
    CancelBeforeAcceptor {
        initiator: key(initiator),
        challenge: key(CHALLENGE),
        initiator_tokens_vault: key(VAULT_I),
        initiator_own_tokens_taker: token(I_OWN, INITIATOR, MINT_I, 0),
    }
}

fn cancel_after_accounts(initiator: u64) -> CancelAfterAcceptor {
    CancelAfterAcceptor {
        initiator: key(initiator),
        challenge: key(CHALLENGE),
        initiator_tokens_vault: key(VAULT_I),
        initiator_own_tokens_taker: token(I_OWN, INITIATOR, MINT_I, 0),
        acceptor: key(ACCEPTOR),
        acceptor_tokens_vault: key(VAULT_A),
        acceptor_own_tokens_taker: token(A_OWN, ACCEPTOR, MINT_A, 0),
    }
}

fn open_wager(stake: u64) -> Challenge {
    let (c, _) = new_challenge(&new_accounts(1000), 254, stake).unwrap();
    c
}

fn accepted_wager(stake_i: u64, stake_a: u64) -> Challenge {
    let mut c = open_wager(stake_i);
    accept_challenge(&mut c, &accept_accounts(ACCEPTOR, 1000), stake_a).unwrap();
    c
}

fn approved_wager(stake_i: u64, stake_a: u64) -> Challenge {
    let mut c = accepted_wager(stake_i, stake_a);
    approve_acceptor_wager(&mut c, &approve_accounts(INITIATOR)).unwrap();
    c
}

fn transfers_into(effects: &[Effect], accounts: &[u64]) -> u64 {
    let mut total = 0;
    for e in effects {
        if let Effect::Transfer { to, amount, .. } = e {
            if accounts.iter().any(|k| key(*k) == *to) {
                total += amount;
            }
        }
    }
    total
}

fn transfers_out_of(effects: &[Effect], account: u64) -> u64 {
    let mut total = 0;
    for e in effects {
        if let Effect::Transfer { from, amount, .. } = e {
            if *from == key(account) {
                total += amount;
            }
        }
    }
    total
}

fn closes(effects: &[Effect], account: u64) -> bool {
    effects.iter().any(|e| {
        matches!(e, Effect::CloseAccount { account: a, .. } if *a == key(account))
    })
}

fn closes_record(effects: &[Effect]) -> bool {
    effects.iter().any(|e| {
        matches!(e, Effect::CloseChallenge { challenge, destination }
            if *challenge == key(CHALLENGE) && *destination == key(INITIATOR))
    })
}

#[test]
fn create_records_initiator_side_and_delegates_authority() {
    let (c, effects) = new_challenge(&new_accounts(500), 7, 100).unwrap();
    assert_eq!(c.initiator, key(INITIATOR));
    assert_eq!(c.initiator_wager_token_amount, 100);
    assert_eq!(c.initiator_tokens_vault, key(VAULT_I));
    assert_eq!(c.requester, key(REQUESTER));
    assert_eq!(c.bump, 7);
    assert!(c.acceptor.is_unset());
    assert!(!c.acceptor_wager_approved);
    assert_eq!(
        effects,
        vec![
            Effect::Transfer {
                from: key(SOURCE_I),
                to: key(VAULT_I),
                authority: key(INITIATOR),
                amount: 100,
            },
            Effect::TransferAuthority {
                requester: key(REQUESTER),
                authority: key(INITIATOR),
                new_authority: key(CHALLENGE),
            },
        ]
    );
}

#[test]
fn create_rejects_zero_stake() {
    assert_eq!(new_challenge(&new_accounts(500), 7, 0).unwrap_err(), ErrorCode::InvalidAmount);
}

#[test]
fn create_rejects_stake_above_balance() {
    assert_eq!(
        new_challenge(&new_accounts(99), 7, 100).unwrap_err(),
        ErrorCode::InsufficientFunds
    );
    assert!(new_challenge(&new_accounts(100), 7, 100).is_ok());
}

#[test]
fn create_rejects_source_of_someone_else() {
    let mut a = new_accounts(500);
    a.initiator_tokens_source.owner = key(STRANGER);
    assert_eq!(new_challenge(&a, 7, 100).unwrap_err(), ErrorCode::IncorrectAccounts);
}

#[test]
fn initiator_wins_on_even_first_byte() {
    // both stake 100, the oracle answers with first byte 0x04
    let c = approved_wager(100, 100);
    let effects =
        reveal_winner(&c, &reveal_accounts(false, vec![0x04, 0x01]), RevealPolicy::Anyone)
            .unwrap();
    assert_eq!(transfers_into(&effects, &[I_OWN, I_OTHER]), 200);
    assert_eq!(transfers_into(&effects, &[I_OWN]), 100);
    assert_eq!(transfers_into(&effects, &[I_OTHER]), 100);
    assert_eq!(transfers_into(&effects, &[A_OWN, A_OTHER]), 0);
    assert!(closes(&effects, VAULT_I));
    assert!(closes(&effects, VAULT_A));
    assert!(closes_record(&effects));
    assert!(effects.contains(&Effect::TransferAuthority {
        requester: key(REQUESTER),
        authority: key(CHALLENGE),
        new_authority: key(INITIATOR),
    }));
}

#[test]
fn acceptor_wins_on_odd_first_byte() {
    let c = approved_wager(100, 100);
    let effects =
        reveal_winner(&c, &reveal_accounts(false, vec![0x05, 0x02]), RevealPolicy::Anyone)
            .unwrap();
    assert_eq!(transfers_into(&effects, &[A_OWN, A_OTHER]), 200);
    assert_eq!(transfers_into(&effects, &[A_OTHER]), 100);
    assert_eq!(transfers_into(&effects, &[A_OWN]), 100);
    assert_eq!(transfers_into(&effects, &[I_OWN, I_OTHER]), 0);
    assert!(closes(&effects, VAULT_I));
    assert!(closes(&effects, VAULT_A));
    assert!(closes_record(&effects));
}

#[test]
fn reveal_pays_out_exactly_both_stakes() {
    let c = approved_wager(70, 30);
    for byte in [0u8, 1, 2, 255] {
        let effects =
            reveal_winner(&c, &reveal_accounts(false, vec![byte]), RevealPolicy::Anyone).unwrap();
        assert_eq!(transfers_out_of(&effects, VAULT_I), 70);
        assert_eq!(transfers_out_of(&effects, VAULT_A), 30);
        assert_eq!(transfers_into(&effects, &[I_OWN, I_OTHER, A_OWN, A_OTHER]), 100);
    }
}

#[test]
fn winner_follows_parity_of_first_byte() {
    assert_eq!(winner(0), Party::Initiator);
    assert_eq!(winner(4), Party::Initiator);
    assert_eq!(winner(254), Party::Initiator);
    assert_eq!(winner(5), Party::Acceptor);
    assert_eq!(winner(255), Party::Acceptor);
    assert_eq!(winner(4), winner(4));
}

#[test]
fn reveal_ignores_bytes_after_the_first() {
    let c = approved_wager(100, 40);
    let a = reveal_winner(&c, &reveal_accounts(false, vec![7, 0, 0]), RevealPolicy::Anyone);
    let b = reveal_winner(&c, &reveal_accounts(false, vec![7, 9, 200]), RevealPolicy::Anyone);
    assert_eq!(a, b);
}

#[test]
fn cancel_before_acceptor_refunds_initiator() {
    let c = open_wager(50);
    let effects = cancel_before_acceptor(&c, &cancel_before_accounts(INITIATOR)).unwrap();
    assert_eq!(transfers_into(&effects, &[I_OWN]), 50);
    assert_eq!(transfers_out_of(&effects, VAULT_I), 50);
    assert!(closes(&effects, VAULT_I));
    assert!(!closes(&effects, VAULT_A));
    assert_eq!(transfers_out_of(&effects, VAULT_A), 0);
    assert!(closes_record(&effects));
    assert_eq!(
        effects,
        vec![
            Effect::Transfer {
                from: key(VAULT_I),
                to: key(I_OWN),
                authority: key(CHALLENGE),
                amount: 50,
            },
            Effect::CloseAccount {
                account: key(VAULT_I),
                destination: key(INITIATOR),
                authority: key(CHALLENGE),
            },
            Effect::CloseChallenge { challenge: key(CHALLENGE), destination: key(INITIATOR) },
        ]
    );
}

#[test]
fn cancel_before_acceptor_refuses_accepted_wager() {
    let c = accepted_wager(50, 20);
    assert_eq!(
        cancel_before_acceptor(&c, &cancel_before_accounts(INITIATOR)).unwrap_err(),
        ErrorCode::IncorrectAccounts
    );
}

#[test]
fn cancel_after_acceptor_refunds_both() {
    let c = accepted_wager(50, 20);
    let effects = cancel_after_acceptor(&c, &cancel_after_accounts(INITIATOR)).unwrap();
    assert_eq!(effects.len(), 5);
    assert!(!effects.iter().any(|e| matches!(e, Effect::TransferAuthority { .. })));
    assert_eq!(transfers_into(&effects, &[I_OWN]), 50);
    assert_eq!(transfers_into(&effects, &[A_OWN]), 20);
    assert!(closes(&effects, VAULT_I));
    assert!(closes(&effects, VAULT_A));
    assert!(closes_record(&effects));
}

#[test]
fn cancel_after_acceptor_needs_an_acceptor() {
    let c = open_wager(50);
    assert_eq!(
        cancel_after_acceptor(&c, &cancel_after_accounts(INITIATOR)).unwrap_err(),
        ErrorCode::NotAccepted
    );
}

#[test]
fn only_initiator_cancels() {
    let c = open_wager(50);
    assert_eq!(
        cancel_before_acceptor(&c, &cancel_before_accounts(ACCEPTOR)).unwrap_err(),
        ErrorCode::Unauthorized
    );
    let c = accepted_wager(50, 20);
    assert_eq!(
        cancel_after_acceptor(&c, &cancel_after_accounts(ACCEPTOR)).unwrap_err(),
        ErrorCode::Unauthorized
    );
}

#[test]
fn initiator_declines_and_wager_reopens() {
    let mut c = accepted_wager(80, 30);
    let before = c;
    let effects = decline_acceptor_wager(&mut c, &decline_accounts(INITIATOR)).unwrap();
    assert_eq!(transfers_into(&effects, &[A_OWN]), 30);
    assert_eq!(transfers_out_of(&effects, VAULT_A), 30);
    assert_eq!(transfers_out_of(&effects, VAULT_I), 0);
    assert!(closes(&effects, VAULT_A));
    assert!(!closes(&effects, VAULT_I));
    assert!(c.acceptor.is_unset());
    assert!(c.acceptor_tokens_mint.is_unset());
    assert!(c.acceptor_tokens_vault.is_unset());
    assert_eq!(c.acceptor_wager_token_amount, 0);
    assert!(!c.acceptor_wager_approved);
    assert_eq!(c.initiator, before.initiator);
    assert_eq!(c.initiator_tokens_vault, before.initiator_tokens_vault);
    assert_eq!(c.initiator_wager_token_amount, 80);
    assert!(accept_challenge(&mut c, &accept_accounts(ACCEPTOR, 1000), 30).is_ok());
}

#[test]
fn acceptor_declines_own_wager() {
    let mut c = accepted_wager(80, 30);
    let effects = decline_acceptor_wager(&mut c, &decline_accounts(ACCEPTOR)).unwrap();
    assert_eq!(transfers_into(&effects, &[A_OWN]), 30);
    assert!(closes(&effects, VAULT_A));
    assert!(c.acceptor.is_unset());
}

#[test]
fn stranger_cannot_decline() {
    let mut c = accepted_wager(80, 30);
    let before = c;
    assert_eq!(
        decline_acceptor_wager(&mut c, &decline_accounts(STRANGER)).unwrap_err(),
        ErrorCode::Unauthorized
    );
    assert_eq!(c, before);
}

#[test]
fn decline_needs_an_acceptor() {
    let mut c = open_wager(80);
    assert_eq!(
        decline_acceptor_wager(&mut c, &decline_accounts(INITIATOR)).unwrap_err(),
        ErrorCode::NotAccepted
    );
}

#[test]
fn second_accept_fails() {
    let mut c = open_wager(100);
    assert!(accept_challenge(&mut c, &accept_accounts(ACCEPTOR, 1000), 100).is_ok());
    let before = c;
    assert_eq!(
        accept_challenge(&mut c, &accept_accounts(STRANGER, 1000), 100).unwrap_err(),
        ErrorCode::AlreadyAccepted
    );
    assert_eq!(c, before);
    assert_eq!(c.acceptor, key(ACCEPTOR));
}

#[test]
fn accept_validates_stake() {
    let mut c = open_wager(100);
    assert_eq!(
        accept_challenge(&mut c, &accept_accounts(ACCEPTOR, 1000), 0).unwrap_err(),
        ErrorCode::InvalidAmount
    );
    assert_eq!(
        accept_challenge(&mut c, &accept_accounts(ACCEPTOR, 10), 11).unwrap_err(),
        ErrorCode::InsufficientFunds
    );
    let mut a = accept_accounts(ACCEPTOR, 1000);
    a.acceptor_tokens_source.mint = key(MINT_I);
    assert_eq!(accept_challenge(&mut c, &a, 5).unwrap_err(), ErrorCode::IncorrectAccounts);
    assert_eq!(
        accept_challenge(&mut c, &accept_accounts(0, 1000), 5).unwrap_err(),
        ErrorCode::Unauthorized
    );
    assert!(c.acceptor.is_unset());
    let effects = accept_challenge(&mut c, &accept_accounts(ACCEPTOR, 1000), 5).unwrap();
    assert_eq!(
        effects,
        vec![Effect::Transfer {
            from: key(SOURCE_A),
            to: key(VAULT_A),
            authority: key(ACCEPTOR),
            amount: 5,
        }]
    );
}

#[test]
fn approve_issues_one_request() {
    let mut c = accepted_wager(100, 100);
    let effects = approve_acceptor_wager(&mut c, &approve_accounts(INITIATOR)).unwrap();
    assert!(c.acceptor_wager_approved);
    assert_eq!(
        effects,
        vec![Effect::RequestRandom {
            requester: key(REQUESTER),
            oracle: key(ORACLE),
            authority: key(CHALLENGE),
        }]
    );
}

#[test]
fn second_approve_fails_whoever_calls() {
    let mut c = approved_wager(100, 100);
    assert_eq!(
        approve_acceptor_wager(&mut c, &approve_accounts(INITIATOR)).unwrap_err(),
        ErrorCode::AlreadyApproved
    );
    assert_eq!(
        approve_acceptor_wager(&mut c, &approve_accounts(STRANGER)).unwrap_err(),
        ErrorCode::AlreadyApproved
    );
}

#[test]
fn approve_checks_caller_and_acceptance() {
    let mut c = accepted_wager(100, 100);
    assert_eq!(
        approve_acceptor_wager(&mut c, &approve_accounts(ACCEPTOR)).unwrap_err(),
        ErrorCode::Unauthorized
    );
    assert!(!c.acceptor_wager_approved);
    let mut c = open_wager(100);
    assert_eq!(
        approve_acceptor_wager(&mut c, &approve_accounts(INITIATOR)).unwrap_err(),
        ErrorCode::NotAccepted
    );
    let mut c = accepted_wager(100, 100);
    let mut a = approve_accounts(INITIATOR);
    a.requester = key(STRANGER);
    assert_eq!(
        approve_acceptor_wager(&mut c, &a).unwrap_err(),
        ErrorCode::IncorrectAccounts
    );
}

#[test]
fn approval_blocks_decline_and_cancel() {
    let mut c = approved_wager(100, 100);
    let before = c;
    assert_eq!(
        decline_acceptor_wager(&mut c, &decline_accounts(INITIATOR)).unwrap_err(),
        ErrorCode::AlreadyApproved
    );
    assert_eq!(
        decline_acceptor_wager(&mut c, &decline_accounts(ACCEPTOR)).unwrap_err(),
        ErrorCode::AlreadyApproved
    );
    assert_eq!(
        cancel_before_acceptor(&c, &cancel_before_accounts(INITIATOR)).unwrap_err(),
        ErrorCode::AlreadyApproved
    );
    assert_eq!(
        cancel_after_acceptor(&c, &cancel_after_accounts(INITIATOR)).unwrap_err(),
        ErrorCode::AlreadyApproved
    );
    assert_eq!(c, before);
}

#[test]
fn reveal_before_fulfillment_fails() {
    let c = approved_wager(100, 100);
    assert_eq!(
        reveal_winner(&c, &reveal_accounts(true, vec![4]), RevealPolicy::Anyone).unwrap_err(),
        ErrorCode::OracleNotCompleted
    );
    assert_eq!(
        reveal_winner(&c, &reveal_accounts(false, vec![]), RevealPolicy::Anyone).unwrap_err(),
        ErrorCode::OracleNotCompleted
    );
}

#[test]
fn reveal_needs_approval() {
    let c = accepted_wager(100, 100);
    assert_eq!(
        reveal_winner(&c, &reveal_accounts(false, vec![4]), RevealPolicy::Anyone).unwrap_err(),
        ErrorCode::NotApproved
    );
}

#[test]
fn reveal_policy_limits_callers() {
    let c = approved_wager(100, 100);
    let mut a = reveal_accounts(false, vec![4]);
    assert_eq!(
        reveal_winner(&c, &a, RevealPolicy::PartiesOnly).unwrap_err(),
        ErrorCode::Unauthorized
    );
    assert!(reveal_winner(&c, &a, RevealPolicy::Anyone).is_ok());
    a.caller = key(ACCEPTOR);
    assert!(reveal_winner(&c, &a, RevealPolicy::PartiesOnly).is_ok());
}

#[test]
fn reveal_rejects_foreign_accounts() {
    let c = approved_wager(100, 100);
    let mut a = reveal_accounts(false, vec![4]);
    a.initiator_other_tokens_taker.owner = key(STRANGER);
    assert_eq!(
        reveal_winner(&c, &a, RevealPolicy::Anyone).unwrap_err(),
        ErrorCode::IncorrectAccounts
    );
    let mut a = reveal_accounts(false, vec![4]);
    a.requester.key = key(STRANGER);
    assert_eq!(
        reveal_winner(&c, &a, RevealPolicy::Anyone).unwrap_err(),
        ErrorCode::IncorrectAccounts
    );
}

#[test]
fn vault_withdrawals_are_signed_by_the_record() {
    let signed_by_record = |effects: &[Effect]| {
        effects.iter().all(|e| match e {
            Effect::Transfer { authority, .. } => *authority == key(CHALLENGE),
            _ => true,
        })
    };
    let c = approved_wager(10, 20);
    assert!(signed_by_record(
        &reveal_winner(&c, &reveal_accounts(false, vec![3]), RevealPolicy::Anyone).unwrap()
    ));
    let c = accepted_wager(10, 20);
    assert!(signed_by_record(
        &cancel_after_acceptor(&c, &cancel_after_accounts(INITIATOR)).unwrap()
    ));
    let mut d = c;
    assert!(signed_by_record(
        &decline_acceptor_wager(&mut d, &decline_accounts(ACCEPTOR)).unwrap()
    ));
    let c = open_wager(10);
    assert!(signed_by_record(
        &cancel_before_acceptor(&c, &cancel_before_accounts(INITIATOR)).unwrap()
    ));
}

#[test]
fn accept_refuses_the_initiators_vault() {
    let mut c = open_wager(100);
    let mut a = accept_accounts(ACCEPTOR, 1000);
    a.acceptor_tokens_vault = key(VAULT_I);
    assert_eq!(accept_challenge(&mut c, &a, 5).unwrap_err(), ErrorCode::IncorrectAccounts);
    let mut a = accept_accounts(ACCEPTOR, 1000);
    a.acceptor_tokens_source.key = key(VAULT_I);
    assert_eq!(accept_challenge(&mut c, &a, 5).unwrap_err(), ErrorCode::IncorrectAccounts);
    assert!(c.acceptor.is_unset());
}

#[test]
fn decline_refuses_refund_into_the_initiators_vault() {
    let mut c = accepted_wager(80, 30);
    let before = c;
    let mut d = decline_accounts(INITIATOR);
    d.acceptor_own_tokens_taker.key = key(VAULT_I);
    assert_eq!(decline_acceptor_wager(&mut c, &d).unwrap_err(), ErrorCode::IncorrectAccounts);
    assert_eq!(c, before);
}

#[test]
fn a_second_acceptor_takes_a_declined_wager() {
    let mut c = accepted_wager(100, 30);
    decline_acceptor_wager(&mut c, &decline_accounts(ACCEPTOR)).unwrap();
    let mut a = accept_accounts(STRANGER, 1000);
    a.acceptor_tokens_vault = key(77);
    let effects = accept_challenge(&mut c, &a, 60).unwrap();
    assert_eq!(c.acceptor, key(STRANGER));
    assert_eq!(c.acceptor_wager_token_amount, 60);
    assert_eq!(c.initiator_wager_token_amount, 100);
    assert_eq!(transfers_out_of(&effects, VAULT_I), 0);
    assert_eq!(transfers_into(&effects, &[77]), 60);
}
