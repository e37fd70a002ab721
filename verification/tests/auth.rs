use ed25519_dalek::{Signer, SigningKey};
use sha2::{Digest, Sha256};

use x402_flash_settlement::auth::AuthValidator;
use x402_flash_settlement::types::{PaymentAuth, X402Error};

fn sample_auth() -> PaymentAuth {
    PaymentAuth {
        settlement_contract: 0x1111_2222_3333_4444,
        client: 5,
        server: 6,
        token: 7,
        amount: 123_456_789_000,
        nonce: 42,
        deadline: 0x0102_0304_0506_0708,
    }
}

#[test]
fn test_payment_message_matches_manual_encoding() {
    let auth = sample_auth();
    let mut manual: Vec<u8> = Vec::new();
    manual.extend_from_slice(&auth.settlement_contract.to_be_bytes());
    manual.extend_from_slice(&auth.client.to_be_bytes());
    manual.extend_from_slice(&auth.server.to_be_bytes());
    manual.extend_from_slice(&auth.token.to_be_bytes());
    manual.extend_from_slice(&(auth.amount as u128).to_be_bytes());
    manual.extend_from_slice(&auth.nonce.to_be_bytes());
    manual.extend_from_slice(&auth.deadline.to_be_bytes());
    assert_eq!(manual.len(), 64);
    let expected: [u8; 32] = Sha256::digest(&manual).into();
    assert_eq!(AuthValidator::create_payment_message(&auth), expected);
}

#[test]
fn test_payment_message_binds_every_field() {
    let base = sample_auth();
    let digest = AuthValidator::create_payment_message(&base);
    let variants = [
        PaymentAuth { settlement_contract: base.settlement_contract + 1, ..base },
        PaymentAuth { client: base.client + 1, ..base },
        PaymentAuth { server: base.server + 1, ..base },
        PaymentAuth { token: base.token + 1, ..base },
        PaymentAuth { amount: base.amount + 1, ..base },
        PaymentAuth { nonce: base.nonce + 1, ..base },
        PaymentAuth { deadline: base.deadline + 1, ..base },
    ];
    for changed in variants {
        assert_ne!(AuthValidator::create_payment_message(&changed), digest);
    }
}

#[test]
fn test_verify_payment_signature_roundtrip() {
    let auth = sample_auth();
    let key = SigningKey::from_bytes(&[9u8; 32]);
    let digest = AuthValidator::create_payment_message(&auth);
    let signature = key.sign(&digest).to_bytes();
    let public_key = key.verifying_key().to_bytes();
    assert!(AuthValidator::verify_payment_signature(&auth, &signature, &public_key).is_ok());

    // A flipped signature bit is rejected.
    let mut bad_signature = signature;
    bad_signature[10] ^= 0x01;
    assert_eq!(
        AuthValidator::verify_payment_signature(&auth, &bad_signature, &public_key),
        Err(X402Error::InvalidSignature)
    );

    // A signature over different content is rejected.
    let other = PaymentAuth { amount: auth.amount + 1, ..auth };
    assert_eq!(
        AuthValidator::verify_payment_signature(&other, &signature, &public_key),
        Err(X402Error::InvalidSignature)
    );

    // A garbage public key verifies nothing.
    assert_eq!(
        AuthValidator::verify_payment_signature(&auth, &signature, &[0xFFu8; 32]),
        Err(X402Error::InvalidSignature)
    );
}

#[test]
fn test_validate_auth_errors() {
    let auth = sample_auth();
    let contract = auth.settlement_contract;
    // Deadline passed.
    assert_eq!(
        AuthValidator::validate_auth(&auth, auth.server, contract, auth.deadline + 1),
        Err(X402Error::PaymentExpired)
    );
    // Server mismatch.
    assert_eq!(
        AuthValidator::validate_auth(&auth, auth.server + 1, contract, 100),
        Err(X402Error::Unauthorized)
    );
    // Settlement-contract mismatch.
    assert_eq!(
        AuthValidator::validate_auth(&auth, auth.server, contract + 1, 100),
        Err(X402Error::Unauthorized)
    );
    // Non-positive amount.
    let zero = PaymentAuth { amount: 0, ..auth };
    assert_eq!(
        AuthValidator::validate_auth(&zero, auth.server, contract, 100),
        Err(X402Error::InvalidAmount)
    );
    // Everything in order.
    assert_eq!(AuthValidator::validate_auth(&auth, auth.server, contract, auth.deadline), Ok(()));
}
