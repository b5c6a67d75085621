//! The signing identity: the key material held for the life of the process
//! and the account identifier derived from it. The secret seed never leaves
//! this module; only the derived public bytes are handed out.

use vstd::prelude::*;

use crate::crypto::ed25519_public_key;
use crate::crypto::ed25519_signature;
use crate::crypto::ed25519_verifies;
use crate::errors::BindingError;

verus! {

/// The byte length of a secret seed and of a derived account identifier.
pub const KEY_LENGTH: usize = 32;

/// The target chain's native account identifier: the signer's public-key
/// bytes reinterpreted as an account.
pub struct AccountId {
    /// The identifier bytes; always `KEY_LENGTH` of them.
    pub bytes: Vec<u8>,
}

/// Holds the signing key material and resolves the transaction author's
/// account from it. Constructed once at startup; the key material is
/// validated then and never changes.
pub struct SigningIdentityResolver {
    seed: Vec<u8>,
    public: Vec<u8>,
}

impl SigningIdentityResolver {
    /// The held key material, visible to specifications only.
    pub closed spec fn spec_seed(&self) -> Seq<u8> {
        self.seed@
    }

    /// A resolver is well formed when its seed has the expected length and
    /// its cached public bytes are the ones derived from that seed.
    pub closed spec fn wf(&self) -> bool {
        &&& self.seed@.len() == KEY_LENGTH
        &&& self.public@ == ed25519_public_key(self.seed@)
        &&& self.public@.len() == KEY_LENGTH
    }

    /// Builds a resolver from secret seed bytes. A seed of the wrong length
    /// is a configuration error, detected here once at startup.
    pub fn new(seed: Vec<u8>) -> (r: Result<SigningIdentityResolver, BindingError>)
        ensures
            r is Ok <==> seed@.len() == KEY_LENGTH,
            r matches Ok(s) ==> s.wf() && s.spec_seed() == seed@,
            r matches Err(e) ==> e == BindingError::InvalidKeyLength,
    {
        if seed.len() == KEY_LENGTH {
            let public = crate::crypto::derive_public_key(&seed);
            Ok(SigningIdentityResolver { seed, public })
        } else {
            Err(BindingError::InvalidKeyLength)
        }
    }

    /// The account under which this pipeline submits transactions: a pure
    /// function of the held key material.
    pub fn transactions_author(&self) -> (r: AccountId)
        requires
            self.wf(),
        ensures
            r.bytes@ == ed25519_public_key(self.spec_seed()),
            r.bytes@.len() == KEY_LENGTH,
    {
        AccountId { bytes: self.public.clone() }
    }

    /// Signs `message` with the held key material.
    pub fn sign(&self, message: &Vec<u8>) -> (r: Vec<u8>)
        requires
            self.wf(),
        ensures
            r@ == ed25519_signature(self.spec_seed(), message@),
            r@.len() == 64,
            ed25519_verifies(
                ed25519_public_key(self.spec_seed()),
                message@,
                ed25519_signature(self.spec_seed(), message@),
            ),
    {
        crate::crypto::sign_message(&self.seed, message)
    }
}

/// Resolving the author is a pure function of the key material: two
/// resolvers holding the same seed name the same account.
pub proof fn lemma_transactions_author_pure(a: SigningIdentityResolver, b: SigningIdentityResolver)
    requires
        a.wf(),
        b.wf(),
        a.spec_seed() == b.spec_seed(),
    ensures
        ed25519_public_key(a.spec_seed()) == ed25519_public_key(b.spec_seed()),
{
}

} // verus!
