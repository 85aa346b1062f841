use clawwallet::errors::ClawWalletError;
use clawwallet::events::WalletEvent;
use clawwallet::identity::{derive_wallet_address, wallet_namespace_bytes};
use clawwallet::policy::{sol_points_earned, split_fee, token_points_earned};
use clawwallet::registry::Registry;
use clawwallet::wallet::{NativeAccount, TokenAccount};

fn program_id() -> Vec<u8> {
    vec![7u8; 32]
}

fn payer() -> NativeAccount {
    NativeAccount { address: vec![1u8; 32], lamports: 10_000u64 }
}

const MIN_BALANCE: u64 = 1_000;

fn registry_with_wallet(agent_id: &str) -> (Registry, NativeAccount) {
    let mut reg = Registry::new(program_id(), MIN_BALANCE);
    let mut funder = payer();
    let r = reg.create_wallet(agent_id.to_string(), &mut funder, 77);
    assert_eq!(r, Ok(()));
    (reg, funder)
}

#[test]
fn create_wallet_seeds_record_and_emits_event() {
    let mut reg = Registry::new(program_id(), MIN_BALANCE);
    let mut funder = payer();
    let r = reg.create_wallet("alice".to_string(), &mut funder, 42);
    assert_eq!(r, Ok(()));
    assert_eq!(reg.wallets.len(), 1);
    let w = &reg.wallets[0];
    assert_eq!(w.agent_id, "alice");
    assert_eq!(w.owner, vec![1u8; 32]);
    assert_eq!(w.points, 100);
    assert_eq!(w.tx_count, 0);
    assert_eq!(w.created_at, 42);
    assert_eq!(w.balance, MIN_BALANCE);
    assert_eq!(funder.lamports, 10_000 - MIN_BALANCE);
    assert_eq!(reg.events.len(), 1);
    match &reg.events[0] {
        WalletEvent::Created(e) => {
            assert_eq!(e.agent_id, "alice");
            assert_eq!(e.wallet, w.address);
            assert_eq!(e.owner, vec![1u8; 32]);
        }
        _ => panic!("expected a WalletCreated record"),
    }
}

#[test]
fn create_wallet_address_matches_host_derivation() {
    let (reg, _) = registry_with_wallet("alice");
    let pid = solana_pubkey::Pubkey::new_from_array([7u8; 32]);
    let (addr, bump) =
        solana_pubkey::Pubkey::find_program_address(&[b"wallet", b"alice"], &pid);
    assert_eq!(reg.wallets[0].address, addr.to_bytes().to_vec());
    assert_eq!(reg.wallets[0].bump, bump);
}

#[test]
fn derive_wallet_address_is_deterministic() {
    let pid = program_id();
    let a = derive_wallet_address(&pid, &"bob".to_string()).unwrap();
    let b = derive_wallet_address(&pid, &"bob".to_string()).unwrap();
    assert_eq!(a, b);
    assert_eq!(a.0.len(), 32);
    let other = derive_wallet_address(&pid, &"carol".to_string()).unwrap();
    assert_ne!(a.0, other.0);
}

#[test]
fn wallet_namespace_is_the_ascii_bytes_of_wallet() {
    assert_eq!(wallet_namespace_bytes(), b"wallet".to_vec());
}

#[test]
fn create_wallet_rejects_duplicate_identity() {
    let (mut reg, mut funder) = registry_with_wallet("alice");
    let points_before = reg.wallets[0].points;
    let lamports_before = funder.lamports;
    let r = reg.create_wallet("alice".to_string(), &mut funder, 99);
    assert_eq!(r, Err(ClawWalletError::DuplicateIdentity));
    assert_eq!(reg.wallets.len(), 1);
    assert_eq!(reg.wallets[0].points, points_before);
    assert_eq!(reg.wallets[0].created_at, 77);
    assert_eq!(reg.events.len(), 1);
    assert_eq!(funder.lamports, lamports_before);
}

#[test]
fn create_wallet_rejects_identifier_over_64_bytes() {
    let mut reg = Registry::new(program_id(), MIN_BALANCE);
    let mut funder = payer();
    let long_id: String = "x".repeat(65);
    let r = reg.create_wallet(long_id, &mut funder, 0);
    assert_eq!(r, Err(ClawWalletError::IdentifierTooLong));
    assert_eq!(reg.wallets.len(), 0);
    assert_eq!(funder.lamports, 10_000);
}

#[test]
fn create_wallet_rejects_identifier_the_derivation_refuses() {
    // 40 bytes fits the registry's bound but exceeds the derivation
    // scheme's per-seed limit, so the derivation itself rejects it.
    let mut reg = Registry::new(program_id(), MIN_BALANCE);
    let mut funder = payer();
    let id: String = "y".repeat(40);
    let r = reg.create_wallet(id, &mut funder, 0);
    assert_eq!(r, Err(ClawWalletError::IdentifierTooLong));
    assert_eq!(reg.wallets.len(), 0);
}

#[test]
fn create_wallet_rejects_underfunded_payer() {
    let mut reg = Registry::new(program_id(), MIN_BALANCE);
    let mut funder = NativeAccount { address: vec![1u8; 32], lamports: MIN_BALANCE - 1 };
    let r = reg.create_wallet("alice".to_string(), &mut funder, 0);
    assert_eq!(r, Err(ClawWalletError::AllocationFailure));
    assert_eq!(reg.wallets.len(), 0);
    assert_eq!(funder.lamports, MIN_BALANCE - 1);
}

#[test]
fn split_fee_is_half_a_percent_and_conserves_value() {
    assert_eq!(split_fee(1_000), (5, 995));
    assert_eq!(split_fee(199), (0, 199));
    assert_eq!(split_fee(200), (1, 199));
    assert_eq!(split_fee(0), (0, 0));
    for amount in [1u64, 3, 199, 200, 201, 123_456_789, u64::MAX] {
        let (fee, send) = split_fee(amount);
        assert_eq!(fee, amount / 200);
        assert_eq!(fee + send, amount);
    }
}

#[test]
fn sol_points_floor_midrange_and_cap() {
    assert_eq!(sol_points_earned(50_000_000), 1);
    assert_eq!(sol_points_earned(500_000_000), 5);
    assert_eq!(sol_points_earned(2_000_000_000), 10);
    assert_eq!(sol_points_earned(0), 1);
}

#[test]
fn token_points_floor_and_cap() {
    assert_eq!(token_points_earned(50_000), 2);
    assert_eq!(token_points_earned(10_000_000), 20);
    assert_eq!(token_points_earned(300_000), 3);
    assert_eq!(token_points_earned(0), 2);
}

#[test]
fn send_sol_moves_value_and_accrues_points() {
    let (mut reg, _) = registry_with_wallet("alice");
    reg.wallets[0].balance = 1_000_000_000 + MIN_BALANCE;
    let signer = vec![1u8; 32];
    let mut recipient = NativeAccount { address: vec![2u8; 32], lamports: 10 };
    let mut treasury = NativeAccount { address: vec![3u8; 32], lamports: 20 };
    let r = reg.send_sol(0, &signer, &mut recipient, &mut treasury, 1_000_000_000);
    assert_eq!(r, Ok(()));
    assert_eq!(recipient.lamports, 10 + 995_000_000);
    assert_eq!(treasury.lamports, 20 + 5_000_000);
    assert_eq!(reg.wallets[0].balance, MIN_BALANCE);
    assert_eq!(reg.wallets[0].tx_count, 1);
    assert_eq!(reg.wallets[0].points, 110);
    assert_eq!(reg.events.len(), 2);
    match &reg.events[1] {
        WalletEvent::Sol(e) => {
            assert_eq!(e.agent_id, "alice");
            assert_eq!(e.amount, 995_000_000);
            assert_eq!(e.fee, 5_000_000);
            assert_eq!(e.recipient, vec![2u8; 32]);
            assert_eq!(e.points_earned, 10);
        }
        _ => panic!("expected a SolSent record"),
    }
}

#[test]
fn send_sol_insufficient_funds_changes_nothing() {
    let (mut reg, _) = registry_with_wallet("alice");
    reg.wallets[0].balance = MIN_BALANCE + 500;
    let signer = vec![1u8; 32];
    let mut recipient = NativeAccount { address: vec![2u8; 32], lamports: 10 };
    let mut treasury = NativeAccount { address: vec![3u8; 32], lamports: 20 };
    let r = reg.send_sol(0, &signer, &mut recipient, &mut treasury, 501);
    assert_eq!(r, Err(ClawWalletError::InsufficientFunds));
    assert_eq!(recipient.lamports, 10);
    assert_eq!(treasury.lamports, 20);
    assert_eq!(reg.wallets[0].balance, MIN_BALANCE + 500);
    assert_eq!(reg.wallets[0].tx_count, 0);
    assert_eq!(reg.wallets[0].points, 100);
    assert_eq!(reg.events.len(), 1);
}

#[test]
fn send_sol_requires_the_owner_to_sign() {
    let (mut reg, _) = registry_with_wallet("alice");
    reg.wallets[0].balance = MIN_BALANCE + 1_000;
    let wrong_signer = vec![9u8; 32];
    let mut recipient = NativeAccount { address: vec![2u8; 32], lamports: 0 };
    let mut treasury = NativeAccount { address: vec![3u8; 32], lamports: 0 };
    let r = reg.send_sol(0, &wrong_signer, &mut recipient, &mut treasury, 100);
    assert_eq!(r, Err(ClawWalletError::Unauthorized));
    assert_eq!(reg.wallets[0].balance, MIN_BALANCE + 1_000);
    assert_eq!(reg.events.len(), 1);
}

#[test]
fn send_sol_exactly_at_the_floor_succeeds() {
    let (mut reg, _) = registry_with_wallet("alice");
    reg.wallets[0].balance = MIN_BALANCE + 400;
    let signer = vec![1u8; 32];
    let mut recipient = NativeAccount { address: vec![2u8; 32], lamports: 0 };
    let mut treasury = NativeAccount { address: vec![3u8; 32], lamports: 0 };
    let r = reg.send_sol(0, &signer, &mut recipient, &mut treasury, 400);
    assert_eq!(r, Ok(()));
    assert_eq!(reg.wallets[0].balance, MIN_BALANCE);
    assert_eq!(recipient.lamports, 398);
    assert_eq!(treasury.lamports, 2);
}

#[test]
fn send_to_agent_pays_flat_bonus_to_destination() {
    let mut reg = Registry::new(program_id(), MIN_BALANCE);
    let mut funder = payer();
    assert_eq!(reg.create_wallet("alice".to_string(), &mut funder, 1), Ok(()));
    assert_eq!(reg.create_wallet("bob".to_string(), &mut funder, 2), Ok(()));
    reg.wallets[0].balance = MIN_BALANCE + 300_000_000;
    let signer = vec![1u8; 32];
    let mut treasury = NativeAccount { address: vec![3u8; 32], lamports: 0 };
    let r = reg.send_to_agent(0, 1, &signer, &mut treasury, 300_000_000);
    assert_eq!(r, Ok(()));
    assert_eq!(reg.wallets[0].balance, MIN_BALANCE);
    assert_eq!(reg.wallets[0].tx_count, 1);
    assert_eq!(reg.wallets[0].points, 100 + 3);
    assert_eq!(reg.wallets[1].balance, MIN_BALANCE + 298_500_000);
    assert_eq!(reg.wallets[1].tx_count, 0);
    assert_eq!(reg.wallets[1].points, 100 + 5);
    assert_eq!(treasury.lamports, 1_500_000);
    match &reg.events[2] {
        WalletEvent::Agent(e) => {
            assert_eq!(e.from_agent, "alice");
            assert_eq!(e.to_agent, "bob");
            assert_eq!(e.amount, 298_500_000);
            assert_eq!(e.fee, 1_500_000);
            assert_eq!(e.points_earned, 3);
        }
        _ => panic!("expected an AgentTransfer record"),
    }
}

#[test]
fn send_to_agent_zero_amount_still_pays_the_bonus() {
    let mut reg = Registry::new(program_id(), MIN_BALANCE);
    let mut funder = payer();
    assert_eq!(reg.create_wallet("alice".to_string(), &mut funder, 1), Ok(()));
    assert_eq!(reg.create_wallet("bob".to_string(), &mut funder, 2), Ok(()));
    let signer = vec![1u8; 32];
    let mut treasury = NativeAccount { address: vec![3u8; 32], lamports: 0 };
    let r = reg.send_to_agent(0, 1, &signer, &mut treasury, 0);
    assert_eq!(r, Ok(()));
    assert_eq!(reg.wallets[1].points, 105);
    assert_eq!(reg.wallets[0].points, 101);
    assert_eq!(reg.wallets[0].tx_count, 1);
    assert_eq!(reg.wallets[0].balance, MIN_BALANCE);
    assert_eq!(reg.wallets[1].balance, MIN_BALANCE);
    assert_eq!(treasury.lamports, 0);
}

#[test]
fn send_to_agent_insufficient_funds_touches_neither_wallet() {
    let mut reg = Registry::new(program_id(), MIN_BALANCE);
    let mut funder = payer();
    assert_eq!(reg.create_wallet("alice".to_string(), &mut funder, 1), Ok(()));
    assert_eq!(reg.create_wallet("bob".to_string(), &mut funder, 2), Ok(()));
    let signer = vec![1u8; 32];
    let mut treasury = NativeAccount { address: vec![3u8; 32], lamports: 0 };
    let r = reg.send_to_agent(0, 1, &signer, &mut treasury, 1);
    assert_eq!(r, Err(ClawWalletError::InsufficientFunds));
    assert_eq!(reg.wallets[0].points, 100);
    assert_eq!(reg.wallets[0].tx_count, 0);
    assert_eq!(reg.wallets[1].points, 100);
    assert_eq!(reg.wallets[0].balance, MIN_BALANCE);
    assert_eq!(reg.wallets[1].balance, MIN_BALANCE);
    assert_eq!(reg.events.len(), 2);
}

#[test]
fn send_token_moves_tokens_and_accrues_wider_points() {
    let (mut reg, _) = registry_with_wallet("alice");
    let signer = vec![1u8; 32];
    let mint = vec![4u8; 32];
    let authority = reg.wallets[0].address.clone();
    let mut wallet_token =
        TokenAccount { address: vec![5u8; 32], authority, amount: 100_000 };
    let mut recipient_token =
        TokenAccount { address: vec![6u8; 32], authority: vec![2u8; 32], amount: 7 };
    let mut treasury_token =
        TokenAccount { address: vec![8u8; 32], authority: vec![3u8; 32], amount: 0 };
    let r = reg.send_token(
        0,
        &signer,
        &mint,
        &mut wallet_token,
        &mut recipient_token,
        &mut treasury_token,
        50_000,
    );
    assert_eq!(r, Ok(()));
    assert_eq!(wallet_token.amount, 50_000);
    assert_eq!(recipient_token.amount, 7 + 49_750);
    assert_eq!(treasury_token.amount, 250);
    assert_eq!(reg.wallets[0].tx_count, 1);
    assert_eq!(reg.wallets[0].points, 102);
    assert_eq!(reg.wallets[0].balance, MIN_BALANCE);
    match &reg.events[1] {
        WalletEvent::Token(e) => {
            assert_eq!(e.agent_id, "alice");
            assert_eq!(e.mint, vec![4u8; 32]);
            assert_eq!(e.amount, 49_750);
            assert_eq!(e.fee, 250);
            assert_eq!(e.recipient, vec![6u8; 32]);
            assert_eq!(e.points_earned, 2);
        }
        _ => panic!("expected a TokenSent record"),
    }
}

#[test]
fn send_token_requires_the_wallet_authority_on_the_source() {
    let (mut reg, _) = registry_with_wallet("alice");
    let signer = vec![1u8; 32];
    let mint = vec![4u8; 32];
    let mut wallet_token =
        TokenAccount { address: vec![5u8; 32], authority: vec![9u8; 32], amount: 100_000 };
    let mut recipient_token =
        TokenAccount { address: vec![6u8; 32], authority: vec![2u8; 32], amount: 0 };
    let mut treasury_token =
        TokenAccount { address: vec![8u8; 32], authority: vec![3u8; 32], amount: 0 };
    let r = reg.send_token(
        0,
        &signer,
        &mint,
        &mut wallet_token,
        &mut recipient_token,
        &mut treasury_token,
        10,
    );
    assert_eq!(r, Err(ClawWalletError::Unauthorized));
    assert_eq!(wallet_token.amount, 100_000);
    assert_eq!(recipient_token.amount, 0);
    assert_eq!(reg.events.len(), 1);
}

#[test]
fn send_token_insufficient_balance_changes_nothing() {
    let (mut reg, _) = registry_with_wallet("alice");
    let signer = vec![1u8; 32];
    let mint = vec![4u8; 32];
    let authority = reg.wallets[0].address.clone();
    let mut wallet_token = TokenAccount { address: vec![5u8; 32], authority, amount: 9 };
    let mut recipient_token =
        TokenAccount { address: vec![6u8; 32], authority: vec![2u8; 32], amount: 0 };
    let mut treasury_token =
        TokenAccount { address: vec![8u8; 32], authority: vec![3u8; 32], amount: 0 };
    let r = reg.send_token(
        0,
        &signer,
        &mint,
        &mut wallet_token,
        &mut recipient_token,
        &mut treasury_token,
        10,
    );
    assert_eq!(r, Err(ClawWalletError::InsufficientFunds));
    assert_eq!(wallet_token.amount, 9);
    assert_eq!(recipient_token.amount, 0);
    assert_eq!(treasury_token.amount, 0);
    assert_eq!(reg.wallets[0].tx_count, 0);
    assert_eq!(reg.wallets[0].points, 100);
}

#[test]
fn find_wallet_locates_registered_agents() {
    let mut reg = Registry::new(program_id(), MIN_BALANCE);
    let mut funder = payer();
    assert_eq!(reg.create_wallet("alice".to_string(), &mut funder, 1), Ok(()));
    assert_eq!(reg.create_wallet("bob".to_string(), &mut funder, 2), Ok(()));
    assert_eq!(reg.find_wallet(&"alice".to_string()), Some(0));
    assert_eq!(reg.find_wallet(&"bob".to_string()), Some(1));
    assert_eq!(reg.find_wallet(&"carol".to_string()), None);
}

#[test]
fn create_wallet_with_key_decides_from_the_derivation_result() {
    let mut reg = Registry::new(program_id(), MIN_BALANCE);
    let mut funder = payer();
    let r = reg.create_wallet_with_key("alice".to_string(), None, &mut funder, 5);
    assert_eq!(r, Err(ClawWalletError::IdentifierTooLong));
    assert_eq!(reg.wallets.len(), 0);
    let key = derive_wallet_address(&program_id(), &"alice".to_string());
    assert!(key.is_some());
    let r2 = reg.create_wallet_with_key("alice".to_string(), key.clone(), &mut funder, 5);
    assert_eq!(r2, Ok(()));
    let (addr, bump) = key.unwrap();
    assert_eq!(reg.wallets[0].address, addr);
    assert_eq!(reg.wallets[0].bump, bump);
}

#[test]
fn create_wallet_accepts_empty_identifier() {
    let mut reg = Registry::new(program_id(), MIN_BALANCE);
    let mut funder = payer();
    let r = reg.create_wallet(String::new(), &mut funder, 3);
    assert_eq!(r, Ok(()));
    assert_eq!(reg.wallets[0].agent_id, "");
    assert_eq!(reg.wallets[0].points, 100);
}

#[test]
fn create_wallet_accepts_a_32_byte_identifier() {
    // The longest identifier the derivation scheme takes as a single seed.
    let mut reg = Registry::new(program_id(), MIN_BALANCE);
    let mut funder = payer();
    let id: String = "z".repeat(32);
    let r = reg.create_wallet(id.clone(), &mut funder, 3);
    assert_eq!(r, Ok(()));
    assert_eq!(reg.wallets[0].agent_id, id);
    assert_eq!(reg.wallets[0].address.len(), 32);
}

#[test]
fn derive_wallet_address_success_is_decided_by_the_identifier() {
    let pid = program_id();
    let long: String = "w".repeat(40);
    assert!(derive_wallet_address(&pid, &long).is_none());
    assert!(derive_wallet_address(&pid, &"ok".to_string()).is_some());
}
