//! The finality transaction builder: encodes a finalized source-chain header
//! together with its justification into the target chain's "submit finality
//! proof" call, wraps the call with the transaction nonce and a signature
//! bound to the target chain's genesis identifier, and serializes the whole
//! envelope to its canonical bytes.
//!
//! Layout of a submission transaction:
//! signer (32) | signature (64) | nonce (4, little endian) | call,
//! where the call is
//! pallet index (1) | call index (1) | height (4, little endian) | hash (32)
//! | justification length (4, little endian) | justification bytes.
//! The signature covers call | nonce | genesis hash; the genesis hash itself
//! is not carried in the envelope, so a transaction only verifies against the
//! chain it was built for.

use vstd::prelude::*;
use vstd::bytes::*;

use crate::crypto::ed25519_public_key;
use crate::crypto::ed25519_signature;
use crate::crypto::ed25519_verifies;
use crate::header::Justification;
use crate::header::SyncHeader;
use crate::signer::SigningIdentityResolver;

verus! {

/// Index of the bridge pallet in the target runtime's call enumeration.
pub const PALLET_INDEX: u8 = 17;

/// Index of the "submit finality proof" call inside the bridge pallet.
pub const CALL_INDEX: u8 = 0;

/// The target chain's native call for "submit finality proof", over the
/// header data and the justification bytes.
pub open spec fn spec_encode_call(height: u32, hash: Seq<u8>, justification: Seq<u8>) -> Seq<u8> {
    seq![PALLET_INDEX, CALL_INDEX] + spec_u32_to_le_bytes(height) + hash
        + spec_u32_to_le_bytes(justification.len() as u32) + justification
}

/// What the signature covers: the call, the nonce, and the genesis
/// identifier of the target chain.
pub open spec fn spec_signing_payload(call: Seq<u8>, nonce: u32, genesis: Seq<u8>) -> Seq<u8> {
    call + spec_u32_to_le_bytes(nonce) + genesis
}

/// The transaction envelope around a call.
pub open spec fn spec_transaction_bytes(
    signer: Seq<u8>,
    signature: Seq<u8>,
    nonce: u32,
    call: Seq<u8>,
) -> Seq<u8> {
    signer + signature + spec_u32_to_le_bytes(nonce) + call
}

/// The full output of the builder as a function of its inputs: the call is
/// encoded, signed together with the nonce and the genesis identifier, and
/// wrapped into the envelope.
pub open spec fn spec_submission_bytes(
    seed: Seq<u8>,
    nonce: u32,
    height: u32,
    hash: Seq<u8>,
    justification: Seq<u8>,
    genesis: Seq<u8>,
) -> Seq<u8> {
    let call = spec_encode_call(height, hash, justification);
    let payload = spec_signing_payload(call, nonce, genesis);
    spec_transaction_bytes(ed25519_public_key(seed), ed25519_signature(seed, payload), nonce, call)
}

/// The nonce field of an encoded transaction.
pub open spec fn spec_tx_nonce(bytes: Seq<u8>) -> u32 {
    spec_u32_from_le_bytes(bytes.subrange(96, 100))
}

/// The call payload of an encoded transaction.
pub open spec fn spec_tx_call(bytes: Seq<u8>) -> Seq<u8> {
    bytes.subrange(100, bytes.len() as int)
}

/// A signed, submittable transaction: an opaque byte string consumed by the
/// external broadcaster.
pub struct SubmissionTransaction {
    /// The canonical encoding of the signed envelope.
    pub bytes: Vec<u8>,
}

/// The components recovered from a submission transaction, at the
/// specification level.
#[verifier::ext_equal]
pub struct DecodedTransactionView {
    /// Account bytes of the author.
    pub signer: Seq<u8>,
    /// Signature over call, nonce and genesis identifier.
    pub signature: Seq<u8>,
    /// The transaction nonce.
    pub nonce: u32,
    /// Height of the proven header.
    pub height: u32,
    /// Hash of the proven header.
    pub hash: Seq<u8>,
    /// The justification bytes carried by the call.
    pub justification: Seq<u8>,
}

/// The components recovered from a submission transaction.
pub struct DecodedTransaction {
    /// Account bytes of the author.
    pub signer: Vec<u8>,
    /// Signature over call, nonce and genesis identifier.
    pub signature: Vec<u8>,
    /// The transaction nonce.
    pub nonce: u32,
    /// Height of the proven header.
    pub height: u32,
    /// Hash of the proven header.
    pub hash: Vec<u8>,
    /// The justification bytes carried by the call.
    pub justification: Vec<u8>,
}

impl View for DecodedTransaction {
    type V = DecodedTransactionView;

    open spec fn view(&self) -> DecodedTransactionView {
        DecodedTransactionView {
            signer: self.signer@,
            signature: self.signature@,
            nonce: self.nonce,
            height: self.height,
            hash: self.hash@,
            justification: self.justification@,
        }
    }
}

/// Whether a byte string is a structurally valid submission transaction:
/// long enough for the fixed fields, routed to the bridge pallet's "submit
/// finality proof" call, and with a justification length prefix that matches
/// the remaining bytes exactly.
pub open spec fn spec_transaction_decodable(bytes: Seq<u8>) -> bool {
    &&& bytes.len() >= 142
    &&& bytes[100] == PALLET_INDEX
    &&& bytes[101] == CALL_INDEX
    &&& spec_u32_from_le_bytes(bytes.subrange(138, 142)) as int == bytes.len() - 142
}

/// The components of a structurally valid transaction, `None` otherwise.
pub open spec fn spec_decode_transaction(bytes: Seq<u8>) -> Option<DecodedTransactionView> {
    if spec_transaction_decodable(bytes) {
        Some(
            DecodedTransactionView {
                signer: bytes.subrange(0, 32),
                signature: bytes.subrange(32, 96),
                nonce: spec_u32_from_le_bytes(bytes.subrange(96, 100)),
                height: spec_u32_from_le_bytes(bytes.subrange(102, 106)),
                hash: bytes.subrange(106, 138),
                justification: bytes.subrange(142, bytes.len() as int),
            },
        )
    } else {
        None
    }
}

/// Encodes the target chain's "submit finality proof" call for one header
/// and its justification.
pub fn encode_call(header: &SyncHeader, justification: &Justification) -> (r: Vec<u8>)
    requires
        header.wf(),
        justification.wf(),
    ensures
        r@ == spec_encode_call(header.height, header.hash@, justification.bytes@),
        r@.len() == 42 + justification.bytes@.len(),
{
    let mut out: Vec<u8> = Vec::new();
    out.push(PALLET_INDEX);
    out.push(CALL_INDEX);
    let mut height_bytes = u32_to_le_bytes(header.height);
    out.append(&mut height_bytes);
    let mut hash_bytes = vstd::slice::slice_to_vec(header.hash.as_slice());
    out.append(&mut hash_bytes);
    let mut length_bytes = u32_to_le_bytes(justification.bytes.len() as u32);
    out.append(&mut length_bytes);
    let mut proof_bytes = vstd::slice::slice_to_vec(justification.bytes.as_slice());
    out.append(&mut proof_bytes);
    proof {
        assert(out@ =~= spec_encode_call(header.height, header.hash@, justification.bytes@));
    }
    out
}

/// Builds the signed submission transaction for one relay round. Pure in its
/// inputs: the same signer, nonce, header, justification and genesis
/// identifier always yield the same bytes. The signature it embeds verifies
/// under the signer's public key over the call, the nonce and the genesis
/// identifier.
pub fn build_submission_transaction(
    signer: &SigningIdentityResolver,
    genesis_hash: &Vec<u8>,
    transaction_nonce: u32,
    header: &SyncHeader,
    justification: &Justification,
) -> (r: SubmissionTransaction)
    requires
        signer.wf(),
        genesis_hash@.len() == 32,
        header.wf(),
        justification.wf(),
    ensures
        r.bytes@ == spec_submission_bytes(
            signer.spec_seed(),
            transaction_nonce,
            header.height,
            header.hash@,
            justification.bytes@,
            genesis_hash@,
        ),
        ed25519_verifies(
            ed25519_public_key(signer.spec_seed()),
            spec_signing_payload(
                spec_encode_call(header.height, header.hash@, justification.bytes@),
                transaction_nonce,
                genesis_hash@,
            ),
            ed25519_signature(
                signer.spec_seed(),
                spec_signing_payload(
                    spec_encode_call(header.height, header.hash@, justification.bytes@),
                    transaction_nonce,
                    genesis_hash@,
                ),
            ),
        ),
{
    let call = encode_call(header, justification);
    let mut payload = vstd::slice::slice_to_vec(call.as_slice());
    let mut nonce_bytes = u32_to_le_bytes(transaction_nonce);
    payload.append(&mut nonce_bytes);
    let mut genesis_bytes = vstd::slice::slice_to_vec(genesis_hash.as_slice());
    payload.append(&mut genesis_bytes);
    proof {
        assert(payload@ =~= spec_signing_payload(
            spec_encode_call(header.height, header.hash@, justification.bytes@),
            transaction_nonce,
            genesis_hash@,
        ));
    }
    let signature = signer.sign(&payload);
    let mut bytes = signer.transactions_author().bytes;
    let mut signature_bytes = vstd::slice::slice_to_vec(signature.as_slice());
    bytes.append(&mut signature_bytes);
    let mut nonce_bytes_envelope = u32_to_le_bytes(transaction_nonce);
    bytes.append(&mut nonce_bytes_envelope);
    let mut call_bytes = call;
    bytes.append(&mut call_bytes);
    proof {
        assert(bytes@ =~= spec_submission_bytes(
            signer.spec_seed(),
            transaction_nonce,
            header.height,
            header.hash@,
            justification.bytes@,
            genesis_hash@,
        ));
    }
    SubmissionTransaction { bytes }
}

/// Decodes a submission transaction back into its components. Returns the
/// components exactly when the bytes are structurally valid, and nothing
/// otherwise.
pub fn decode_submission_transaction(tx: &SubmissionTransaction) -> (r: Option<DecodedTransaction>)
    ensures
        r is Some <==> spec_transaction_decodable(tx.bytes@),
        r matches Some(d) ==> Some(d@) == spec_decode_transaction(tx.bytes@),
{
    let bytes = &tx.bytes;
    let n = bytes.len();
    if n < 142 {
        return None;
    }
    if bytes[100] != PALLET_INDEX || bytes[101] != CALL_INDEX {
        return None;
    }
    let justification_len = u32_from_le_bytes(vstd::slice::slice_subrange(bytes.as_slice(), 138, 142));
    if justification_len as usize != n - 142 {
        return None;
    }
    let decoded = DecodedTransaction {
        signer: vstd::slice::slice_to_vec(vstd::slice::slice_subrange(bytes.as_slice(), 0, 32)),
        signature: vstd::slice::slice_to_vec(vstd::slice::slice_subrange(bytes.as_slice(), 32, 96)),
        nonce: u32_from_le_bytes(vstd::slice::slice_subrange(bytes.as_slice(), 96, 100)),
        height: u32_from_le_bytes(vstd::slice::slice_subrange(bytes.as_slice(), 102, 106)),
        hash: vstd::slice::slice_to_vec(vstd::slice::slice_subrange(bytes.as_slice(), 106, 138)),
        justification: vstd::slice::slice_to_vec(vstd::slice::slice_subrange(bytes.as_slice(), 142, n)),
    };
    Some(decoded)
}

/// Checks the embedded signature of a transaction against the genesis
/// identifier of a chain: the transaction is decoded, the signing payload is
/// rebuilt from the recovered call and nonce together with `genesis_hash`,
/// and the signature is verified under the recovered signer bytes.
pub fn verify_submission_signature(tx: &SubmissionTransaction, genesis_hash: &Vec<u8>) -> (r: bool)
    requires
        genesis_hash@.len() == 32,
    ensures
        r == match spec_decode_transaction(tx.bytes@) {
            Some(d) => ed25519_verifies(
                d.signer,
                spec_signing_payload(
                    spec_encode_call(d.height, d.hash, d.justification),
                    d.nonce,
                    genesis_hash@,
                ),
                d.signature,
            ),
            None => false,
        },
{
    let decoded = decode_submission_transaction(tx);
    match decoded {
        None => false,
        Some(d) => {
            let header = SyncHeader { height: d.height, hash: d.hash };
            let justification = Justification { bytes: d.justification };
            let call = encode_call(&header, &justification);
            let mut payload = call;
            let mut nonce_bytes = u32_to_le_bytes(d.nonce);
            payload.append(&mut nonce_bytes);
            let mut genesis_bytes = vstd::slice::slice_to_vec(genesis_hash.as_slice());
            payload.append(&mut genesis_bytes);
            proof {
                assert(payload@ =~= spec_signing_payload(
                    spec_encode_call(header.height, header.hash@, justification.bytes@),
                    d.nonce,
                    genesis_hash@,
                ));
            }
            crate::crypto::verify_signature(&d.signer, &payload, &d.signature)
        },
    }
}

/// The builder is deterministic: two input tuples that agree component for
/// component yield byte-identical transactions. The postcondition of
/// `build_submission_transaction` pins each call's output to
/// `spec_submission_bytes` of its inputs, so this covers two separate calls.
pub proof fn lemma_builder_deterministic(
    seed1: Seq<u8>,
    nonce1: u32,
    height1: u32,
    hash1: Seq<u8>,
    justification1: Seq<u8>,
    genesis1: Seq<u8>,
    seed2: Seq<u8>,
    nonce2: u32,
    height2: u32,
    hash2: Seq<u8>,
    justification2: Seq<u8>,
    genesis2: Seq<u8>,
)
    requires
        seed1 == seed2,
        nonce1 == nonce2,
        height1 == height2,
        hash1 == hash2,
        justification1 == justification2,
        genesis1 == genesis2,
    ensures
        spec_submission_bytes(seed1, nonce1, height1, hash1, justification1, genesis1)
            == spec_submission_bytes(seed2, nonce2, height2, hash2, justification2, genesis2),
{
}

/// Decoding inverts the envelope encoding: a transaction assembled from
/// well-formed components decodes to exactly those components.
pub proof fn lemma_decode_inverts_encode(
    signer: Seq<u8>,
    signature: Seq<u8>,
    nonce: u32,
    height: u32,
    hash: Seq<u8>,
    justification: Seq<u8>,
)
    requires
        signer.len() == 32,
        signature.len() == 64,
        hash.len() == 32,
        justification.len() <= 0xffff_ffff,
    ensures
        (spec_decode_transaction(
            spec_transaction_bytes(signer, signature, nonce, spec_encode_call(height, hash, justification)),
        ) == Some(
            DecodedTransactionView { signer, signature, nonce, height, hash, justification },
        )),
{
    let call = spec_encode_call(height, hash, justification);
    let bytes = spec_transaction_bytes(signer, signature, nonce, call);
    lemma_auto_spec_u32_to_from_le_bytes();
    assert(call.len() == 42 + justification.len());
    assert(bytes.len() == 142 + justification.len());
    assert(bytes.subrange(0, 32) =~= signer);
    assert(bytes.subrange(32, 96) =~= signature);
    assert(bytes.subrange(96, 100) =~= spec_u32_to_le_bytes(nonce));
    assert(bytes[100] == PALLET_INDEX);
    assert(bytes[101] == CALL_INDEX);
    assert(bytes.subrange(102, 106) =~= spec_u32_to_le_bytes(height));
    assert(bytes.subrange(106, 138) =~= hash);
    assert(bytes.subrange(138, 142) =~= spec_u32_to_le_bytes(justification.len() as u32));
    assert(bytes.subrange(142, bytes.len() as int) =~= justification);
    assert(spec_transaction_decodable(bytes));
}

/// Round trip: a transaction built by the builder decodes to the signer's
/// public key, the signature over call, nonce and genesis identifier, and
/// exactly the nonce, header data and justification it was built from.
pub proof fn lemma_round_trip(
    seed: Seq<u8>,
    nonce: u32,
    height: u32,
    hash: Seq<u8>,
    justification: Seq<u8>,
    genesis: Seq<u8>,
)
    requires
        hash.len() == 32,
        justification.len() <= 0xffff_ffff,
        ed25519_public_key(seed).len() == 32,
        ed25519_signature(
            seed,
            spec_signing_payload(spec_encode_call(height, hash, justification), nonce, genesis),
        ).len() == 64,
    ensures
        (spec_decode_transaction(
            spec_submission_bytes(seed, nonce, height, hash, justification, genesis),
        ) == Some(
            DecodedTransactionView {
                signer: ed25519_public_key(seed),
                signature: ed25519_signature(
                    seed,
                    spec_signing_payload(
                        spec_encode_call(height, hash, justification),
                        nonce,
                        genesis,
                    ),
                ),
                nonce,
                height,
                hash,
                justification,
            },
        )),
{
    lemma_decode_inverts_encode(
        ed25519_public_key(seed),
        ed25519_signature(
            seed,
            spec_signing_payload(spec_encode_call(height, hash, justification), nonce, genesis),
        ),
        nonce,
        height,
        hash,
        justification,
    );
}

/// A transaction built for a genesis identifier passes
/// `verify_submission_signature` against that same identifier: its decoded
/// components reproduce exactly the payload that was signed. The premise on
/// `ed25519_verifies` holds of every signature the signer produces; it is
/// established by `build_submission_transaction`'s postcondition.
pub proof fn lemma_built_transaction_passes_verification(
    seed: Seq<u8>,
    nonce: u32,
    height: u32,
    hash: Seq<u8>,
    justification: Seq<u8>,
    genesis: Seq<u8>,
)
    requires
        hash.len() == 32,
        justification.len() <= 0xffff_ffff,
        ed25519_public_key(seed).len() == 32,
        ed25519_signature(
            seed,
            spec_signing_payload(spec_encode_call(height, hash, justification), nonce, genesis),
        ).len() == 64,
        ed25519_verifies(
            ed25519_public_key(seed),
            spec_signing_payload(spec_encode_call(height, hash, justification), nonce, genesis),
            ed25519_signature(
                seed,
                spec_signing_payload(spec_encode_call(height, hash, justification), nonce, genesis),
            ),
        ),
    ensures
        match spec_decode_transaction(
            spec_submission_bytes(seed, nonce, height, hash, justification, genesis),
        ) {
            Some(d) => ed25519_verifies(
                d.signer,
                spec_signing_payload(
                    spec_encode_call(d.height, d.hash, d.justification),
                    d.nonce,
                    genesis,
                ),
                d.signature,
            ),
            None => false,
        },
{
    lemma_round_trip(seed, nonce, height, hash, justification, genesis);
}

/// The call encoding is injective: equal call bytes can only come from the
/// same header data and justification.
pub proof fn lemma_encode_call_injective(
    height1: u32,
    hash1: Seq<u8>,
    justification1: Seq<u8>,
    height2: u32,
    hash2: Seq<u8>,
    justification2: Seq<u8>,
)
    requires
        hash1.len() == 32,
        hash2.len() == 32,
        justification1.len() <= 0xffff_ffff,
        justification2.len() <= 0xffff_ffff,
        spec_encode_call(height1, hash1, justification1) == spec_encode_call(
            height2,
            hash2,
            justification2,
        ),
    ensures
        height1 == height2,
        hash1 == hash2,
        justification1 == justification2,
{
    let c1 = spec_encode_call(height1, hash1, justification1);
    let c2 = spec_encode_call(height2, hash2, justification2);
    lemma_auto_spec_u32_to_from_le_bytes();
    assert(c1.len() == 42 + justification1.len());
    assert(c2.len() == 42 + justification2.len());
    assert(justification1.len() == justification2.len());
    assert(c1.subrange(2, 6) =~= spec_u32_to_le_bytes(height1));
    assert(c2.subrange(2, 6) =~= spec_u32_to_le_bytes(height2));
    assert(height1 == height2);
    assert(c1.subrange(6, 38) =~= hash1);
    assert(c2.subrange(6, 38) =~= hash2);
    assert(hash1 =~= hash2);
    assert(c1.subrange(42, c1.len() as int) =~= justification1);
    assert(c2.subrange(42, c2.len() as int) =~= justification2);
    assert(justification1 =~= justification2);
}

/// Changing only the nonce changes the output bytes and the recoverable
/// nonce field, and leaves the call payload unchanged.
pub proof fn lemma_nonce_distinguishes(
    seed: Seq<u8>,
    nonce1: u32,
    nonce2: u32,
    height: u32,
    hash: Seq<u8>,
    justification: Seq<u8>,
    genesis: Seq<u8>,
)
    requires
        nonce1 != nonce2,
        hash.len() == 32,
        justification.len() <= 0xffff_ffff,
        ed25519_public_key(seed).len() == 32,
        ed25519_signature(
            seed,
            spec_signing_payload(spec_encode_call(height, hash, justification), nonce1, genesis),
        ).len() == 64,
        ed25519_signature(
            seed,
            spec_signing_payload(spec_encode_call(height, hash, justification), nonce2, genesis),
        ).len() == 64,
    ensures
        spec_submission_bytes(seed, nonce1, height, hash, justification, genesis)
            != spec_submission_bytes(seed, nonce2, height, hash, justification, genesis),
        spec_tx_nonce(spec_submission_bytes(seed, nonce1, height, hash, justification, genesis))
            == nonce1,
        spec_tx_nonce(spec_submission_bytes(seed, nonce2, height, hash, justification, genesis))
            == nonce2,
        spec_tx_call(spec_submission_bytes(seed, nonce1, height, hash, justification, genesis))
            == spec_tx_call(spec_submission_bytes(seed, nonce2, height, hash, justification, genesis)),
{
    let call = spec_encode_call(height, hash, justification);
    let tx1 = spec_submission_bytes(seed, nonce1, height, hash, justification, genesis);
    let tx2 = spec_submission_bytes(seed, nonce2, height, hash, justification, genesis);
    lemma_auto_spec_u32_to_from_le_bytes();
    assert(call.len() == 42 + justification.len());
    assert(tx1.subrange(96, 100) =~= spec_u32_to_le_bytes(nonce1));
    assert(tx2.subrange(96, 100) =~= spec_u32_to_le_bytes(nonce2));
    assert(spec_tx_nonce(tx1) == nonce1);
    assert(spec_tx_nonce(tx2) == nonce2);
    assert(spec_tx_call(tx1) =~= call);
    assert(spec_tx_call(tx2) =~= call);
}

/// Changing the header or the justification while keeping the nonce changes
/// the call payload of the transaction, and with it the bytes, but not the
/// nonce field.
pub proof fn lemma_header_change_confined_to_call(
    seed: Seq<u8>,
    nonce: u32,
    height1: u32,
    hash1: Seq<u8>,
    justification1: Seq<u8>,
    height2: u32,
    hash2: Seq<u8>,
    justification2: Seq<u8>,
    genesis: Seq<u8>,
)
    requires
        hash1.len() == 32,
        hash2.len() == 32,
        justification1.len() <= 0xffff_ffff,
        justification2.len() <= 0xffff_ffff,
        height1 != height2 || hash1 != hash2 || justification1 != justification2,
        ed25519_public_key(seed).len() == 32,
        ed25519_signature(
            seed,
            spec_signing_payload(spec_encode_call(height1, hash1, justification1), nonce, genesis),
        ).len() == 64,
        ed25519_signature(
            seed,
            spec_signing_payload(spec_encode_call(height2, hash2, justification2), nonce, genesis),
        ).len() == 64,
    ensures
        spec_tx_call(spec_submission_bytes(seed, nonce, height1, hash1, justification1, genesis))
            != spec_tx_call(spec_submission_bytes(seed, nonce, height2, hash2, justification2, genesis)),
        spec_submission_bytes(seed, nonce, height1, hash1, justification1, genesis)
            != spec_submission_bytes(seed, nonce, height2, hash2, justification2, genesis),
        spec_tx_nonce(spec_submission_bytes(seed, nonce, height1, hash1, justification1, genesis))
            == spec_tx_nonce(spec_submission_bytes(seed, nonce, height2, hash2, justification2, genesis)),
{
    let call1 = spec_encode_call(height1, hash1, justification1);
    let call2 = spec_encode_call(height2, hash2, justification2);
    let tx1 = spec_submission_bytes(seed, nonce, height1, hash1, justification1, genesis);
    let tx2 = spec_submission_bytes(seed, nonce, height2, hash2, justification2, genesis);
    lemma_auto_spec_u32_to_from_le_bytes();
    assert(call1.len() == 42 + justification1.len());
    assert(call2.len() == 42 + justification2.len());
    if call1 == call2 {
        lemma_encode_call_injective(height1, hash1, justification1, height2, hash2, justification2);
        assert(false);
    }
    assert(spec_tx_call(tx1) =~= call1);
    assert(spec_tx_call(tx2) =~= call2);
    assert(tx1.subrange(96, 100) =~= spec_u32_to_le_bytes(nonce));
    assert(tx2.subrange(96, 100) =~= spec_u32_to_le_bytes(nonce));
}

} // verus!
