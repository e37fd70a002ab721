use ed25519_dalek::{Signer, SigningKey};

use x402_flash_settlement::auth::AuthValidator;
use x402_flash_settlement::storage::Storage;
use x402_flash_settlement::types::{Channel, ChannelState, PaymentAuth, TransferAction, X402Error};
use x402_flash_settlement::X402FlashContract;

const CONTRACT: u64 = 9000;
const ADMIN: u64 = 1;
const CLIENT: u64 = 2;
const SERVER: u64 = 3;
const TOKEN: u64 = 4;

fn new_engine() -> X402FlashContract {
    X402FlashContract::new(CONTRACT, Storage::new())
}

fn client_key() -> SigningKey {
    SigningKey::from_bytes(&[7u8; 32])
}

fn signed(auth: &PaymentAuth) -> ([u8; 64], [u8; 32]) {
    let key = client_key();
    let digest = AuthValidator::create_payment_message(auth);
    let signature = key.sign(&digest).to_bytes();
    let public_key = key.verifying_key().to_bytes();
    (signature, public_key)
}

fn auth_for(amount: i128, nonce: u64, deadline: u64) -> PaymentAuth {
    PaymentAuth {
        settlement_contract: CONTRACT,
        client: CLIENT,
        server: SERVER,
        token: TOKEN,
        amount,
        nonce,
        deadline,
    }
}

#[test]
fn test_initialize() {
    let mut engine = new_engine();
    assert!(engine.initialize(ADMIN).is_ok());
}

#[test]
fn test_open_escrow() {
    let mut engine = new_engine();
    engine.initialize(ADMIN).unwrap();
    engine
        .open_escrow(CLIENT, CLIENT, SERVER, TOKEN, 1_000_000, 3600, 100)
        .unwrap();
    assert_eq!(engine.current_escrow(CLIENT, SERVER), 1_000_000);
    // A pair without a channel reads as zero and never errors.
    assert_eq!(engine.current_escrow(CLIENT, SERVER + 1), 0);
}

#[test]
fn test_close_escrow() {
    let mut engine = new_engine();
    engine.initialize(ADMIN).unwrap();
    engine
        .open_escrow(CLIENT, CLIENT, SERVER, TOKEN, 1_000_000, 3600, 100)
        .unwrap();
    engine.client_close_escrow(CLIENT, CLIENT, SERVER).unwrap();
    assert_eq!(engine.current_escrow(CLIENT, SERVER), 0);
}

#[test]
fn test_get_nonce() {
    let mut engine = new_engine();
    engine.initialize(ADMIN).unwrap();
    assert_eq!(engine.get_nonce(CLIENT), 0);
}

#[test]
fn test_settlement_scenario() {
    let mut engine = new_engine();
    engine.initialize(ADMIN).unwrap();
    let deposit = engine
        .open_escrow(CLIENT, CLIENT, SERVER, TOKEN, 1_000_000, 3600, 1000)
        .unwrap();
    assert_eq!(
        deposit,
        TransferAction { token: TOKEN, from: CLIENT, to: CONTRACT, amount: 1_000_000 }
    );
    assert_eq!(engine.current_escrow(CLIENT, SERVER), 1_000_000);

    let auth = auth_for(500_000, 0, 2000);
    let (signature, public_key) = signed(&auth);
    let payout = engine
        .settle_payment(SERVER, CLIENT, SERVER, auth, signature, public_key, 1001)
        .unwrap();
    assert_eq!(
        payout,
        TransferAction { token: TOKEN, from: CONTRACT, to: SERVER, amount: 500_000 }
    );
    assert_eq!(engine.current_escrow(CLIENT, SERVER), 500_000);
    assert_eq!(engine.get_nonce(CLIENT), 1);

    // Replaying the redeemed authorization: the counter has moved past its
    // nonce, so the sequential-counter gate rejects it first.
    let replay = engine.settle_payment(SERVER, CLIENT, SERVER, auth, signature, public_key, 1002);
    assert_eq!(replay, Err(X402Error::InvalidNonce));

    // A fresh authorization that reuses nonce 0 fails the same gate.
    let stale_nonce = auth_for(1_000, 0, 3000);
    let (sig2, pk2) = signed(&stale_nonce);
    let reused = engine.settle_payment(SERVER, CLIENT, SERVER, stale_nonce, sig2, pk2, 1003);
    assert_eq!(reused, Err(X402Error::InvalidNonce));

    // Waiting past the TTL: the next settlement fails and records
    // PendingClose, regardless of the authorization being valid.
    let late = auth_for(1_000, 1, 10_000);
    let (sig3, pk3) = signed(&late);
    let lapsed = engine.settle_payment(SERVER, CLIENT, SERVER, late, sig3, pk3, 1001 + 3601);
    assert_eq!(lapsed, Err(X402Error::ChannelNotOpen));
    let channel = engine.storage.get_channel(CLIENT, SERVER).unwrap();
    assert_eq!(channel.state, ChannelState::PendingClose);

    // Closing refunds the remainder.
    let refund = engine.client_close_escrow(CLIENT, CLIENT, SERVER).unwrap();
    assert_eq!(
        refund,
        Some(TransferAction { token: TOKEN, from: CONTRACT, to: CLIENT, amount: 500_000 })
    );
    assert_eq!(engine.current_escrow(CLIENT, SERVER), 0);
}

#[test]
fn test_settle_rejects_bad_signature() {
    let mut engine = new_engine();
    engine.initialize(ADMIN).unwrap();
    engine
        .open_escrow(CLIENT, CLIENT, SERVER, TOKEN, 1_000_000, 3600, 100)
        .unwrap();
    let auth = auth_for(500, 0, 2000);
    let (mut signature, public_key) = signed(&auth);
    signature[5] ^= 0x40;
    let r = engine.settle_payment(SERVER, CLIENT, SERVER, auth, signature, public_key, 101);
    assert_eq!(r, Err(X402Error::InvalidSignature));
    // The failed call changed nothing.
    assert_eq!(engine.current_escrow(CLIENT, SERVER), 1_000_000);
    assert_eq!(engine.get_nonce(CLIENT), 0);
}

#[test]
fn test_settle_rejects_wrong_signer() {
    let mut engine = new_engine();
    engine.initialize(ADMIN).unwrap();
    engine
        .open_escrow(CLIENT, CLIENT, SERVER, TOKEN, 1_000_000, 3600, 100)
        .unwrap();
    let auth = auth_for(500, 0, 2000);
    let other = SigningKey::from_bytes(&[8u8; 32]);
    let digest = AuthValidator::create_payment_message(&auth);
    let signature = other.sign(&digest).to_bytes();
    // Signed by the wrong key but claiming the right client key.
    let public_key = client_key().verifying_key().to_bytes();
    let r = engine.settle_payment(SERVER, CLIENT, SERVER, auth, signature, public_key, 101);
    assert_eq!(r, Err(X402Error::InvalidSignature));
}

#[test]
fn test_settle_content_gates() {
    let mut engine = new_engine();
    engine.initialize(ADMIN).unwrap();
    engine
        .open_escrow(CLIENT, CLIENT, SERVER, TOKEN, 1_000_000, 3600, 100)
        .unwrap();

    // Expired deadline.
    let expired = auth_for(500, 0, 90);
    let (sig, pk) = signed(&expired);
    assert_eq!(
        engine.settle_payment(SERVER, CLIENT, SERVER, expired, sig, pk, 101),
        Err(X402Error::PaymentExpired)
    );

    // Claimed server does not match the call.
    let mut wrong_server = auth_for(500, 0, 2000);
    wrong_server.server = SERVER + 1;
    let (sig, pk) = signed(&wrong_server);
    assert_eq!(
        engine.settle_payment(SERVER, CLIENT, SERVER, wrong_server, sig, pk, 101),
        Err(X402Error::Unauthorized)
    );

    // Authorization bound to another settlement contract.
    let mut wrong_contract = auth_for(500, 0, 2000);
    wrong_contract.settlement_contract = CONTRACT + 1;
    let (sig, pk) = signed(&wrong_contract);
    assert_eq!(
        engine.settle_payment(SERVER, CLIENT, SERVER, wrong_contract, sig, pk, 101),
        Err(X402Error::Unauthorized)
    );

    // Zero amount.
    let zero = auth_for(0, 0, 2000);
    let (sig, pk) = signed(&zero);
    assert_eq!(
        engine.settle_payment(SERVER, CLIENT, SERVER, zero, sig, pk, 101),
        Err(X402Error::InvalidAmount)
    );

    // Caller is not the server.
    let auth = auth_for(500, 0, 2000);
    let (sig, pk) = signed(&auth);
    assert_eq!(
        engine.settle_payment(CLIENT, CLIENT, SERVER, auth, sig, pk, 101),
        Err(X402Error::Unauthorized)
    );

    // No channel for the pair.
    assert_eq!(
        engine.settle_payment(SERVER, CLIENT + 1, SERVER, auth, sig, pk, 101),
        Err(X402Error::ChannelNotOpen)
    );
}

#[test]
fn test_settle_nonce_gates() {
    let mut storage = Storage::new();
    // A used-nonce record left behind without the counter having moved: the
    // counter gate passes and the used-set gate still refuses the replay.
    storage.mark_nonce_used(CLIENT, SERVER, 0);
    let mut engine = X402FlashContract::new(CONTRACT, storage);
    engine.initialize(ADMIN).unwrap();
    engine
        .open_escrow(CLIENT, CLIENT, SERVER, TOKEN, 1_000_000, 3600, 100)
        .unwrap();
    let auth = auth_for(500, 0, 2000);
    let (sig, pk) = signed(&auth);
    assert_eq!(
        engine.settle_payment(SERVER, CLIENT, SERVER, auth, sig, pk, 101),
        Err(X402Error::NonceAlreadyUsed)
    );

    // A nonce ahead of the counter is refused by the counter gate.
    let ahead = auth_for(500, 5, 2000);
    let (sig, pk) = signed(&ahead);
    assert_eq!(
        engine.settle_payment(SERVER, CLIENT, SERVER, ahead, sig, pk, 101),
        Err(X402Error::InvalidNonce)
    );
}

#[test]
fn test_settle_value_gates() {
    let mut engine = new_engine();
    engine.initialize(ADMIN).unwrap();
    engine
        .open_escrow(CLIENT, CLIENT, SERVER, TOKEN, 1_000, 3600, 100)
        .unwrap();

    // Below the default minimum payment of 100.
    let tiny = auth_for(99, 0, 2000);
    let (sig, pk) = signed(&tiny);
    assert_eq!(
        engine.settle_payment(SERVER, CLIENT, SERVER, tiny, sig, pk, 101),
        Err(X402Error::InvalidAmount)
    );

    // More than the escrow holds.
    let huge = auth_for(2_000, 0, 2000);
    let (sig, pk) = signed(&huge);
    assert_eq!(
        engine.settle_payment(SERVER, CLIENT, SERVER, huge, sig, pk, 101),
        Err(X402Error::InsufficientEscrow)
    );

    // A raised per-token floor applies.
    engine.set_minimum_payment(ADMIN, TOKEN, 800).unwrap();
    let mid = auth_for(500, 0, 2000);
    let (sig, pk) = signed(&mid);
    assert_eq!(
        engine.settle_payment(SERVER, CLIENT, SERVER, mid, sig, pk, 101),
        Err(X402Error::InvalidAmount)
    );
}

#[test]
fn test_settle_rate_limit() {
    let mut engine = new_engine();
    engine.initialize(ADMIN).unwrap();
    engine
        .open_escrow(CLIENT, CLIENT, SERVER, TOKEN, 1_000_000, 3600, 100)
        .unwrap();
    let first = auth_for(500, 0, 2000);
    let (sig, pk) = signed(&first);
    engine
        .settle_payment(SERVER, CLIENT, SERVER, first, sig, pk, 101)
        .unwrap();
    // A second settlement in the same time unit is refused.
    let second = auth_for(500, 1, 2000);
    let (sig, pk) = signed(&second);
    assert_eq!(
        engine.settle_payment(SERVER, CLIENT, SERVER, second, sig, pk, 101),
        Err(X402Error::RateLimitExceeded)
    );
    // One time unit later it goes through.
    let (sig, pk) = signed(&second);
    assert!(engine
        .settle_payment(SERVER, CLIENT, SERVER, second, sig, pk, 102)
        .is_ok());
}

#[test]
fn test_open_escrow_gates() {
    let mut engine = new_engine();
    engine.initialize(ADMIN).unwrap();
    assert_eq!(
        engine.open_escrow(SERVER, CLIENT, SERVER, TOKEN, 1_000, 3600, 100),
        Err(X402Error::Unauthorized)
    );
    assert_eq!(
        engine.open_escrow(CLIENT, CLIENT, SERVER, TOKEN, 0, 3600, 100),
        Err(X402Error::InvalidAmount)
    );
    engine
        .open_escrow(CLIENT, CLIENT, SERVER, TOKEN, 1_000, 3600, 100)
        .unwrap();
    assert_eq!(
        engine.open_escrow(CLIENT, CLIENT, SERVER, TOKEN, 2_000, 3600, 101),
        Err(X402Error::ChannelAlreadyExists)
    );
    // A closed channel can be re-opened.
    engine.client_close_escrow(CLIENT, CLIENT, SERVER).unwrap();
    engine
        .open_escrow(CLIENT, CLIENT, SERVER, TOKEN, 2_000, 3600, 102)
        .unwrap();
    assert_eq!(engine.current_escrow(CLIENT, SERVER), 2_000);
}

#[test]
fn test_close_escrow_gates() {
    let mut engine = new_engine();
    engine.initialize(ADMIN).unwrap();
    assert_eq!(
        engine.client_close_escrow(CLIENT, CLIENT, SERVER),
        Err(X402Error::ChannelNotOpen)
    );
    engine
        .open_escrow(CLIENT, CLIENT, SERVER, TOKEN, 1_000, 3600, 100)
        .unwrap();
    assert_eq!(
        engine.client_close_escrow(SERVER, CLIENT, SERVER),
        Err(X402Error::Unauthorized)
    );
    // A channel with settlements still in flight cannot be closed.
    let stuck = Channel {
        pending_settlements: 1,
        ..engine.storage.get_channel(CLIENT, SERVER).unwrap()
    };
    engine.storage.set_channel(CLIENT, SERVER, &stuck);
    assert_eq!(
        engine.client_close_escrow(CLIENT, CLIENT, SERVER),
        Err(X402Error::PendingSettlements)
    );
    let unstuck = Channel { pending_settlements: 0, ..stuck };
    engine.storage.set_channel(CLIENT, SERVER, &unstuck);
    engine.client_close_escrow(CLIENT, CLIENT, SERVER).unwrap();
    assert_eq!(
        engine.client_close_escrow(CLIENT, CLIENT, SERVER),
        Err(X402Error::ChannelNotOpen)
    );
}

#[test]
fn test_pause_gates_operations() {
    let mut engine = new_engine();
    engine.initialize(ADMIN).unwrap();
    engine
        .open_escrow(CLIENT, CLIENT, SERVER, TOKEN, 1_000, 3600, 100)
        .unwrap();
    assert_eq!(engine.pause(CLIENT), Err(X402Error::Unauthorized));
    engine.pause(ADMIN).unwrap();
    assert_eq!(
        engine.open_escrow(CLIENT, CLIENT, SERVER + 1, TOKEN, 1_000, 3600, 101),
        Err(X402Error::ContractPaused)
    );
    let auth = auth_for(500, 0, 2000);
    let (sig, pk) = signed(&auth);
    assert_eq!(
        engine.settle_payment(SERVER, CLIENT, SERVER, auth, sig, pk, 101),
        Err(X402Error::ContractPaused)
    );
    assert_eq!(
        engine.client_close_escrow(CLIENT, CLIENT, SERVER),
        Err(X402Error::ContractPaused)
    );
    engine.unpause(ADMIN).unwrap();
    engine.client_close_escrow(CLIENT, CLIENT, SERVER).unwrap();
}

#[test]
fn test_emergency_withdraw_paths() {
    let mut engine = new_engine();
    engine.initialize(ADMIN).unwrap();
    engine
        .open_escrow(CLIENT, CLIENT, SERVER, TOKEN, 1_000, 3600, 100)
        .unwrap();
    // Only available while paused.
    assert_eq!(
        engine.emergency_withdraw(CLIENT, CLIENT, SERVER),
        Err(X402Error::Unauthorized)
    );
    engine.pause(ADMIN).unwrap();
    assert_eq!(
        engine.emergency_withdraw(SERVER, CLIENT, SERVER),
        Err(X402Error::Unauthorized)
    );
    assert_eq!(
        engine.emergency_withdraw(CLIENT, CLIENT, SERVER + 1),
        Err(X402Error::ChannelNotOpen)
    );
    let refund = engine.emergency_withdraw(CLIENT, CLIENT, SERVER).unwrap();
    assert_eq!(
        refund,
        Some(TransferAction { token: TOKEN, from: CONTRACT, to: CLIENT, amount: 1_000 })
    );
    let channel = engine.storage.get_channel(CLIENT, SERVER).unwrap();
    assert_eq!(channel.state, ChannelState::Closed);
    assert_eq!(channel.escrow_balance, 0);
    // A drained channel yields no transfer.
    assert_eq!(engine.emergency_withdraw(CLIENT, CLIENT, SERVER).unwrap(), None);
}

#[test]
fn test_initialize_only_once() {
    let mut engine = new_engine();
    engine.initialize(ADMIN).unwrap();
    assert_eq!(engine.initialize(CLIENT), Err(X402Error::Unauthorized));
    // The first admin still holds.
    assert!(engine.pause(ADMIN).is_ok());
}

#[test]
fn test_set_minimum_payment_requires_admin() {
    let mut engine = new_engine();
    engine.initialize(ADMIN).unwrap();
    assert_eq!(
        engine.set_minimum_payment(CLIENT, TOKEN, 500),
        Err(X402Error::Unauthorized)
    );
    engine.set_minimum_payment(ADMIN, TOKEN, 500).unwrap();
    assert_eq!(engine.storage.get_minimum_payment(TOKEN), 500);
}

#[test]
fn test_history_bound_and_order() {
    let mut engine = new_engine();
    engine.initialize(ADMIN).unwrap();
    engine
        .open_escrow(CLIENT, CLIENT, SERVER, TOKEN, 10_000_000, 1_000_000, 100)
        .unwrap();
    let runs: u64 = 105;
    for i in 0..runs {
        let auth = auth_for(100 + i as i128, i, 10_000_000);
        let (sig, pk) = signed(&auth);
        engine
            .settle_payment(SERVER, CLIENT, SERVER, auth, sig, pk, 200 + i)
            .unwrap();
        let history = engine.storage.get_settlement_history(CLIENT, SERVER);
        assert_eq!(history.len() as u64, (i + 1).min(100));
    }
    // Only the 100 most recent remain, oldest first.
    let history = engine.storage.get_settlement_history(CLIENT, SERVER);
    assert_eq!(history.len(), 100);
    for (k, record) in history.iter().enumerate() {
        let i = runs - 100 + k as u64;
        assert_eq!(record.amount, 100 + i as i128);
        assert_eq!(record.timestamp, 200 + i);
    }
    assert_eq!(engine.get_nonce(CLIENT), runs);
}
