use vstd::prelude::*;

use sha2::Digest;

use crate::types::{AccountId, PaymentAuth, X402Error};

verus! {

/// The big-endian, fixed-width byte encoding of an identity or counter.
pub open spec fn be_bytes_u64(x: u64) -> Seq<u8> {
    seq![
        (x / 0x100_0000_0000_0000) as u8,
        ((x / 0x1_0000_0000_0000) % 0x100) as u8,
        ((x / 0x100_0000_0000) % 0x100) as u8,
        ((x / 0x1_0000_0000) % 0x100) as u8,
        ((x / 0x100_0000) % 0x100) as u8,
        ((x / 0x1_0000) % 0x100) as u8,
        ((x / 0x100) % 0x100) as u8,
        (x % 0x100) as u8,
    ]
}

/// The big-endian, fixed-width byte encoding of a non-negative amount.
pub open spec fn be_bytes_amount(x: i128) -> Seq<u8> {
    seq![
        (x / 0x100_0000_0000_0000_0000_0000_0000_0000) as u8,
        ((x / 0x1_0000_0000_0000_0000_0000_0000_0000) % 0x100) as u8,
        ((x / 0x100_0000_0000_0000_0000_0000_0000) % 0x100) as u8,
        ((x / 0x1_0000_0000_0000_0000_0000_0000) % 0x100) as u8,
        ((x / 0x100_0000_0000_0000_0000_0000) % 0x100) as u8,
        ((x / 0x1_0000_0000_0000_0000_0000) % 0x100) as u8,
        ((x / 0x100_0000_0000_0000_0000) % 0x100) as u8,
        ((x / 0x1_0000_0000_0000_0000) % 0x100) as u8,
        ((x / 0x100_0000_0000_0000) % 0x100) as u8,
        ((x / 0x1_0000_0000_0000) % 0x100) as u8,
        ((x / 0x100_0000_0000) % 0x100) as u8,
        ((x / 0x1_0000_0000) % 0x100) as u8,
        ((x / 0x100_0000) % 0x100) as u8,
        ((x / 0x1_0000) % 0x100) as u8,
        ((x / 0x100) % 0x100) as u8,
        (x % 0x100) as u8,
    ]
}

/// The canonical byte sequence of a payment authorization: every field, in
/// fixed order, in a fixed-width big-endian encoding. Any change to this
/// layout breaks all previously issued signatures.
pub open spec fn payment_message_bytes(auth: PaymentAuth) -> Seq<u8> {
    be_bytes_u64(auth.settlement_contract) + be_bytes_u64(auth.client) + be_bytes_u64(auth.server)
        + be_bytes_u64(auth.token) + be_bytes_amount(auth.amount) + be_bytes_u64(auth.nonce)
        + be_bytes_u64(auth.deadline)
}

/// The SHA-256 digest of the canonical bytes of an authorization; this is
/// what the client signs and what the settlement history records.
pub open spec fn payment_digest(auth: PaymentAuth) -> Seq<u8> {
    sha256_of(payment_message_bytes(auth))
}

/// Whether a detached signature over the digest of an authorization checks
/// out under the claimed public key.
pub open spec fn signature_valid(auth: PaymentAuth, public_key: Seq<u8>, signature: Seq<u8>) -> bool {
    ed25519_valid(public_key, payment_digest(auth), signature)
}

/// The outcome of the content checks on an authorization, independent of
/// cryptographic validity: the deadline must not have passed, the claimed
/// server and settlement contract must match the call, and the amount must
/// be strictly positive; checked in that order.
pub open spec fn auth_content_check(auth: PaymentAuth, server: AccountId, settlement_contract: AccountId, now: u64) -> Result<(), X402Error> {
    if now > auth.deadline {
        Err(X402Error::PaymentExpired)
    } else if auth.server != server {
        Err(X402Error::Unauthorized)
    } else if auth.settlement_contract != settlement_contract {
        Err(X402Error::Unauthorized)
    } else if auth.amount <= 0 {
        Err(X402Error::InvalidAmount)
    } else {
        Ok(())
    }
}

/// The SHA-256 digest of arbitrary bytes, named only: it is a function of
/// the input bytes alone, and nothing here restates the algorithm.
pub uninterp spec fn sha256_of(data: Seq<u8>) -> Seq<u8>;

/// Whether a detached Ed25519 signature over a message verifies under a
/// 32-byte public key; a function of the three byte strings alone.
pub uninterp spec fn ed25519_valid(public_key: Seq<u8>, message: Seq<u8>, signature: Seq<u8>) -> bool;

/// Relies on sha2::Sha256::digest: returns the SHA-256 digest of the input,
/// a deterministic function of the input bytes, 32 bytes long.
#[verifier::external_body]
fn sha256_digest(data: &Vec<u8>) -> (digest: [u8; 32])
    ensures
        digest@ == sha256_of(data@),
{
    sha2::Sha256::digest(data.as_slice()).into()
}

/// Relies on ed25519_dalek::VerifyingKey::verify_strict: whether `signature`
/// is a valid Ed25519 signature by `public_key` over `message`, a
/// deterministic function of the three byte strings; a `public_key` that
/// ed25519_dalek::VerifyingKey::from_bytes rejects verifies nothing.
#[verifier::external_body]
fn ed25519_verify(public_key: &[u8; 32], message: &[u8; 32], signature: &[u8; 64]) -> (valid: bool)
    ensures
        valid == ed25519_valid(public_key@, message@, signature@),
{
    match ed25519_dalek::VerifyingKey::from_bytes(public_key) {
        Ok(key) => {
            let sig = ed25519_dalek::Signature::from_bytes(signature);
            key.verify_strict(message.as_slice(), &sig).is_ok()
        }
        Err(_) => false,
    }
}

/// Appends the big-endian bytes of a 64-bit field to the message.
fn push_be_u64(out: &mut Vec<u8>, x: u64)
    ensures
        final(out)@ == old(out)@ + be_bytes_u64(x),
{
    out.push((x / 0x100_0000_0000_0000) as u8);
    out.push(((x / 0x1_0000_0000_0000) % 0x100) as u8);
    out.push(((x / 0x100_0000_0000) % 0x100) as u8);
    out.push(((x / 0x1_0000_0000) % 0x100) as u8);
    out.push(((x / 0x100_0000) % 0x100) as u8);
    out.push(((x / 0x1_0000) % 0x100) as u8);
    out.push(((x / 0x100) % 0x100) as u8);
    out.push((x % 0x100) as u8);
    proof {
        assert(out@ =~= old(out)@ + be_bytes_u64(x));
    }
}

/// Appends the big-endian bytes of a non-negative amount to the message.
fn push_be_amount(out: &mut Vec<u8>, x: i128)
    requires
        x >= 0,
    ensures
        final(out)@ == old(out)@ + be_bytes_amount(x),
{
    out.push((x / 0x100_0000_0000_0000_0000_0000_0000_0000) as u8);
    out.push(((x / 0x1_0000_0000_0000_0000_0000_0000_0000) % 0x100) as u8);
    out.push(((x / 0x100_0000_0000_0000_0000_0000_0000) % 0x100) as u8);
    out.push(((x / 0x1_0000_0000_0000_0000_0000_0000) % 0x100) as u8);
    out.push(((x / 0x100_0000_0000_0000_0000_0000) % 0x100) as u8);
    out.push(((x / 0x1_0000_0000_0000_0000_0000) % 0x100) as u8);
    out.push(((x / 0x100_0000_0000_0000_0000) % 0x100) as u8);
    out.push(((x / 0x1_0000_0000_0000_0000) % 0x100) as u8);
    out.push(((x / 0x100_0000_0000_0000) % 0x100) as u8);
    out.push(((x / 0x1_0000_0000_0000) % 0x100) as u8);
    out.push(((x / 0x100_0000_0000) % 0x100) as u8);
    out.push(((x / 0x1_0000_0000) % 0x100) as u8);
    out.push(((x / 0x100_0000) % 0x100) as u8);
    out.push(((x / 0x1_0000) % 0x100) as u8);
    out.push(((x / 0x100) % 0x100) as u8);
    out.push((x % 0x100) as u8);
    proof {
        assert(out@ =~= old(out)@ + be_bytes_amount(x));
    }
}

/// The authorization codec and verifier: canonicalizes a payment
/// authorization, hashes it, and checks the detached client signature and
/// the authorization's content.
pub struct AuthValidator;

impl AuthValidator {
    /// Canonicalizes an authorization and returns the SHA-256 digest of the
    /// canonical bytes; this digest is the signed message.
    pub fn create_payment_message(auth: &PaymentAuth) -> (digest: [u8; 32])
        requires
            auth.amount >= 0,
        ensures
            digest@ == payment_digest(*auth),
    {
        let mut message: Vec<u8> = Vec::new();
        push_be_u64(&mut message, auth.settlement_contract);
        push_be_u64(&mut message, auth.client);
        push_be_u64(&mut message, auth.server);
        push_be_u64(&mut message, auth.token);
        push_be_amount(&mut message, auth.amount);
        push_be_u64(&mut message, auth.nonce);
        push_be_u64(&mut message, auth.deadline);
        proof {
            assert(message@ =~= payment_message_bytes(*auth));
        }
        sha256_digest(&message)
    }

    /// Verifies the detached Ed25519 signature over the digest of the
    /// authorization against the claimed public key. Verification failure is
    /// a hard stop: the only outcomes are success and `InvalidSignature`.
    pub fn verify_payment_signature(auth: &PaymentAuth, signature: &[u8; 64], public_key: &[u8; 32]) -> (r: Result<(), X402Error>)
        requires
            auth.amount >= 0,
        ensures
            r is Ok <==> signature_valid(*auth, public_key@, signature@),
            r is Err ==> r == Err::<(), X402Error>(X402Error::InvalidSignature),
    {
        let message = Self::create_payment_message(auth);
        if ed25519_verify(public_key, &message, signature) {
            Ok(())
        } else {
            Err(X402Error::InvalidSignature)
        }
    }

    /// Runs the content checks on an authorization: deadline not passed,
    /// claimed server and settlement contract match the call, amount
    /// strictly positive. These are independent of signature validity.
    pub fn validate_auth(auth: &PaymentAuth, server: AccountId, settlement_contract: AccountId, now: u64) -> (r: Result<(), X402Error>)
        ensures
            r == auth_content_check(*auth, server, settlement_contract, now),
    {
        if now > auth.deadline {
            return Err(X402Error::PaymentExpired);
        }
        if auth.server != server {
            return Err(X402Error::Unauthorized);
        }
        if auth.settlement_contract != settlement_contract {
            return Err(X402Error::Unauthorized);
        }
        if auth.amount <= 0 {
            return Err(X402Error::InvalidAmount);
        }
        Ok(())
    }
}

} // verus!
