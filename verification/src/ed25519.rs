//! Ed25519 keys and signatures over plain bytes. Keys and signatures cross
//! this boundary as fixed-length byte arrays; the curve arithmetic is the
//! `ed25519-dalek` crate's.

use ed25519_dalek::{Signature, Signer, SigningKey, Verifier, VerifyingKey};
use vstd::prelude::*;

verus! {

/// The 32-byte verifying key that belongs to the 32-byte signing-key seed.
pub uninterp spec fn public_key_of(seed: Seq<u8>) -> Seq<u8>;

/// The 64-byte signature that the signing key of `seed` gives `message`.
/// Ed25519 signing draws no randomness, so this is a function of the two.
pub uninterp spec fn signature_of(seed: Seq<u8>, message: Seq<u8>) -> Seq<u8>;

/// Whether `public_key` decodes to a verifying key and that key accepts
/// `signature` as a signature over `message`.
pub uninterp spec fn accepts(public_key: Seq<u8>, message: Seq<u8>, signature: Seq<u8>) -> bool;

/// `SigningKey::from_bytes` followed by `verifying_key` and `to_bytes`: the
/// verifying key derived from the seed, in its 32-byte encoding.
#[verifier::external_body]
pub(crate) fn derive_public_key(seed: &[u8; 32]) -> (public_key: [u8; 32])
    ensures
        public_key@ == public_key_of(seed@),
{
    SigningKey::from_bytes(seed).verifying_key().to_bytes()
}

/// `Signer::sign` with the signing key of `seed`: the signature over
/// `message`, in its 64-byte encoding. The second clause is the scheme's
/// correctness as the crate documents it: a signature made by a signing key
/// verifies under the verifying key derived from that signing key.
#[verifier::external_body]
pub(crate) fn sign(seed: &[u8; 32], message: &[u8]) -> (signature: [u8; 64])
    ensures
        signature@ == signature_of(seed@, message@),
        accepts(public_key_of(seed@), message@, signature@),
{
    SigningKey::from_bytes(seed).sign(message).to_bytes()
}

/// `VerifyingKey::from_bytes`, then `Verifier::verify` on that key with the
/// signature read by `Signature::from_bytes`. A key that does not decode
/// verifies nothing.
#[verifier::external_body]
pub(crate) fn verify(public_key: &[u8; 32], message: &[u8], signature: &[u8; 64]) -> (ok: bool)
    ensures
        ok == accepts(public_key@, message@, signature@),
{
    match VerifyingKey::from_bytes(public_key) {
        Ok(key) => key.verify(message, &Signature::from_bytes(signature)).is_ok(),
        Err(_) => false,
    }
}

} // verus!
