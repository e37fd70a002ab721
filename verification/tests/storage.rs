use x402_flash_settlement::storage::Storage;
use x402_flash_settlement::types::{Channel, ChannelState, Settlement};

fn sample_channel(balance: i128) -> Channel {
    Channel {
        escrow_balance: balance,
        token: 4,
        opened_at: 10,
        last_activity_at: 10,
        ttl_seconds: 3600,
        state: ChannelState::Open,
        closed_by: None,
        pending_settlements: 0,
    }
}

#[test]
fn test_storage_channel_roundtrip() {
    let mut storage = Storage::new();
    assert!(storage.get_channel(1, 2).is_none());
    storage.set_channel(1, 2, &sample_channel(500));
    storage.set_channel(1, 3, &sample_channel(900));
    assert_eq!(storage.get_channel(1, 2).unwrap().escrow_balance, 500);
    assert_eq!(storage.get_channel(1, 3).unwrap().escrow_balance, 900);
    assert!(storage.get_channel(2, 1).is_none());
    // Last writer wins on the whole record.
    storage.set_channel(1, 2, &sample_channel(250));
    assert_eq!(storage.get_channel(1, 2).unwrap().escrow_balance, 250);
}

#[test]
fn test_storage_nonce_tracking() {
    let mut storage = Storage::new();
    assert!(!storage.has_used_nonce(1, 2, 0));
    storage.mark_nonce_used(1, 2, 0);
    assert!(storage.has_used_nonce(1, 2, 0));
    assert!(!storage.has_used_nonce(1, 2, 1));
    assert!(!storage.has_used_nonce(1, 3, 0));

    assert_eq!(storage.get_client_nonce(1), 0);
    storage.increment_client_nonce(1);
    storage.increment_client_nonce(1);
    assert_eq!(storage.get_client_nonce(1), 2);
    assert_eq!(storage.get_client_nonce(2), 0);
}

#[test]
fn test_storage_history_eviction() {
    let mut storage = Storage::new();
    for i in 0..101u64 {
        let record = Settlement { amount: i as i128, timestamp: i, auth_hash: [0u8; 32] };
        storage.add_settlement(1, 2, record);
    }
    let history = storage.get_settlement_history(1, 2);
    // The bound holds and the oldest record was evicted first.
    assert_eq!(history.len(), 100);
    assert_eq!(history[0].amount, 1);
    assert_eq!(history[99].amount, 100);
    assert!(storage.get_settlement_history(1, 3).is_empty());
}

#[test]
fn test_storage_minimum_payment_floor() {
    let mut storage = Storage::new();
    assert_eq!(storage.get_minimum_payment(4), 100);
    storage.set_minimum_payment(4, 2500);
    assert_eq!(storage.get_minimum_payment(4), 2500);
    assert_eq!(storage.get_minimum_payment(5), 100);
}

#[test]
fn test_storage_admin_and_pause() {
    let mut storage = Storage::new();
    assert!(storage.get_admin().is_none());
    storage.set_admin(7);
    assert_eq!(storage.get_admin(), Some(7));
    assert!(!storage.is_paused());
    storage.set_paused(true);
    assert!(storage.is_paused());
    storage.set_paused(false);
    assert!(!storage.is_paused());
}
