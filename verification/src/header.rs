//! The source-chain data that a relay round hands to the binding layer: a
//! finalized header, identified by its height and hash, and the justification
//! proving its finality. The justification was already verified upstream and
//! is carried here as the opaque byte string that will be re-encoded into the
//! target-chain call.

use vstd::prelude::*;

use crate::errors::BindingError;

verus! {

/// The byte length of a chain hash.
pub const HASH_LENGTH: usize = 32;

/// The largest justification the transaction encoding can frame: its length
/// must fit the 32-bit length prefix.
pub const MAX_JUSTIFICATION_LENGTH: usize = 0xffff_ffff;

/// A source-chain header as the relay engine hands it over: the height and
/// the hash under which the source chain knows it.
pub struct SyncHeader {
    /// Height of the header on the source chain.
    pub height: u32,
    /// Hash of the header; always `HASH_LENGTH` bytes.
    pub hash: Vec<u8>,
}

impl SyncHeader {
    /// A header is well formed when its hash has the expected length.
    pub open spec fn wf(&self) -> bool {
        self.hash@.len() == HASH_LENGTH
    }

    /// Builds a header, rejecting a hash of the wrong length. A wrong length
    /// is a structural fault of the upstream caller, reported as an encoding
    /// error.
    pub fn new(height: u32, hash: Vec<u8>) -> (r: Result<SyncHeader, BindingError>)
        ensures
            r is Ok <==> hash@.len() == HASH_LENGTH,
            r matches Ok(h) ==> h.wf() && h.height == height && h.hash@ == hash@,
            r matches Err(e) ==> e == BindingError::InvalidHashLength,
    {
        if hash.len() == HASH_LENGTH {
            Ok(SyncHeader { height, hash })
        } else {
            Err(BindingError::InvalidHashLength)
        }
    }
}

/// A finality justification: validator signatures over one finalized header.
/// It was produced and checked by the verification collaborator; this layer
/// only re-encodes its bytes into the target-chain call.
pub struct Justification {
    /// The encoded proof.
    pub bytes: Vec<u8>,
}

impl Justification {
    /// A justification is well formed when its length fits the 32-bit length
    /// prefix of the call encoding.
    pub open spec fn wf(&self) -> bool {
        self.bytes@.len() <= MAX_JUSTIFICATION_LENGTH
    }

    /// Wraps proof bytes, rejecting a proof too large for the length prefix.
    pub fn new(bytes: Vec<u8>) -> (r: Result<Justification, BindingError>)
        ensures
            r is Ok <==> bytes@.len() <= MAX_JUSTIFICATION_LENGTH,
            r matches Ok(j) ==> j.wf() && j.bytes@ == bytes@,
            r matches Err(e) ==> e == BindingError::JustificationTooLarge,
    {
        if bytes.len() <= MAX_JUSTIFICATION_LENGTH {
            Ok(Justification { bytes })
        } else {
            Err(BindingError::JustificationTooLarge)
        }
    }
}

/// The identifier of the source-chain header that the target chain currently
/// believes is finalized. The engine reads it from the target chain under the
/// pipeline's lookup key; this layer never constructs one.
pub struct FinalizedHeaderId {
    /// Height of the finalized header.
    pub height: u32,
    /// Hash of the finalized header; always `HASH_LENGTH` bytes.
    pub hash: Vec<u8>,
}

impl FinalizedHeaderId {
    /// Well-formedness of an identifier read from the target chain.
    pub open spec fn wf(&self) -> bool {
        self.hash@.len() == HASH_LENGTH
    }
}

} // verus!
