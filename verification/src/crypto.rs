//! Key handling and signatures. The actual Ed25519 arithmetic is done by the
//! `ed25519_dalek` crate; the functions here are thin trusted wrappers whose
//! contracts name the results. Ed25519 key derivation and signing are
//! deterministic functions of the secret scalar and the message, so the names
//! below are well defined.

use vstd::prelude::*;

verus! {

/// The verifying-key bytes that belong to a 32-byte secret seed.
pub uninterp spec fn ed25519_public_key(seed: Seq<u8>) -> Seq<u8>;

/// The signature that the holder of `seed` produces over `message`.
pub uninterp spec fn ed25519_signature(seed: Seq<u8>, message: Seq<u8>) -> Seq<u8>;

/// Whether `signature` is accepted for `message` under the public key bytes
/// `public`.
pub uninterp spec fn ed25519_verifies(public: Seq<u8>, message: Seq<u8>, signature: Seq<u8>) -> bool;

/// Relies on `ed25519_dalek::SigningKey::from_bytes` and
/// `VerifyingKey::to_bytes`: the verifying key is computed from the 32-byte
/// secret seed alone and is always 32 bytes long.
#[verifier::external_body]
pub(crate) fn derive_public_key(seed: &Vec<u8>) -> (r: Vec<u8>)
    requires
        seed@.len() == 32,
    ensures
        r@ == ed25519_public_key(seed@),
        r@.len() == 32,
{
    let mut bytes = [0u8; 32];
    bytes.copy_from_slice(seed.as_slice());
    ed25519_dalek::SigningKey::from_bytes(&bytes).verifying_key().to_bytes().to_vec()
}

/// Relies on `ed25519_dalek::Signer::sign` for `SigningKey`: RFC 8032 signing
/// is a deterministic function of the secret seed and the message, yields a
/// 64-byte signature, and that signature is accepted by
/// `VerifyingKey::verify` under the corresponding verifying key.
#[verifier::external_body]
pub(crate) fn sign_message(seed: &Vec<u8>, message: &Vec<u8>) -> (r: Vec<u8>)
    requires
        seed@.len() == 32,
    ensures
        r@ == ed25519_signature(seed@, message@),
        r@.len() == 64,
        ed25519_verifies(ed25519_public_key(seed@), message@, r@),
{
    let mut bytes = [0u8; 32];
    bytes.copy_from_slice(seed.as_slice());
    let key = ed25519_dalek::SigningKey::from_bytes(&bytes);
    ed25519_dalek::Signer::sign(&key, message.as_slice()).to_bytes().to_vec()
}

/// Relies on `ed25519_dalek::VerifyingKey::verify`: acceptance is a function
/// of the public-key bytes, the message and the signature bytes alone; key
/// bytes that are no valid curve point accept nothing.
#[verifier::external_body]
pub(crate) fn verify_signature(public: &Vec<u8>, message: &Vec<u8>, signature: &Vec<u8>) -> (r: bool)
    requires
        public@.len() == 32,
        signature@.len() == 64,
    ensures
        r == ed25519_verifies(public@, message@, signature@),
{
    let mut p = [0u8; 32];
    p.copy_from_slice(public.as_slice());
    let mut s = [0u8; 64];
    s.copy_from_slice(signature.as_slice());
    match ed25519_dalek::VerifyingKey::from_bytes(&p) {
        Ok(key) => {
            let sig = ed25519_dalek::Signature::from_bytes(&s);
            ed25519_dalek::Verifier::verify(&key, message.as_slice(), &sig).is_ok()
        },
        Err(_) => false,
    }
}

} // verus!
