//! The pipeline binding: one value associating a source chain with a target
//! chain, the lookup key under which the target chain exposes its best
//! finalized source header, the signing identity used for submissions, the
//! target chain's genesis identifier and the standalone metrics this
//! deployment registers. The engine holds one such binding and drives it.

use vstd::prelude::*;
use vstd::string::StringExecFns;

use crate::crypto::ed25519_public_key;
use crate::crypto::ed25519_signature;
use crate::crypto::ed25519_verifies;
use crate::errors::BindingError;
use crate::header::Justification;
use crate::header::SyncHeader;
use crate::metrics::MetricsParams;
use crate::metrics::MetricsParamsView;
use crate::metrics::StandaloneMetric;
use crate::metrics::spec_added_entries;
use crate::metrics::spec_no_conflict;
use crate::metrics::spec_standalone_views;
use crate::signer::AccountId;
use crate::signer::SigningIdentityResolver;
use crate::transaction::SubmissionTransaction;
use crate::transaction::spec_encode_call;
use crate::transaction::spec_signing_payload;
use crate::transaction::spec_submission_bytes;

verus! {

/// The query identifier under which a chain exposes "best finalized header
/// of `source_chain`": the source chain's finality runtime interface, fixed
/// suffix included.
pub open spec fn spec_lookup_key(source_chain: Seq<char>) -> Seq<char> {
    source_chain + "FinalityApi_best_finalized"@
}

/// The metrics namespace of a pipeline, derived from the two chain names.
pub open spec fn spec_metrics_prefix(source_chain: Seq<char>, target_chain: Seq<char>) -> Seq<char> {
    source_chain + "_to_"@ + target_chain
}

/// Builds the lookup key a target chain exposes for `source_chain`.
pub fn best_finalized_source_header_key(source_chain: &String) -> (r: String)
    ensures
        r@ == spec_lookup_key(source_chain@),
{
    source_chain.clone().concat("FinalityApi_best_finalized")
}

/// One finality pipeline binding. Validated once at construction; immutable
/// afterwards.
pub struct FinalityPipeline {
    source_chain: String,
    target_chain: String,
    lookup_key: String,
    metrics_prefix: String,
    standalone_metrics: Vec<StandaloneMetric>,
    signer: SigningIdentityResolver,
    genesis_hash: Vec<u8>,
}

impl FinalityPipeline {
    /// The held key material, visible to specifications only.
    pub closed spec fn spec_seed(&self) -> Seq<u8> {
        self.signer.spec_seed()
    }

    /// The target chain's genesis identifier.
    pub closed spec fn spec_genesis_hash(&self) -> Seq<u8> {
        self.genesis_hash@
    }

    /// The source chain's name.
    pub closed spec fn spec_source_chain(&self) -> Seq<char> {
        self.source_chain@
    }

    /// The target chain's name.
    pub closed spec fn spec_target_chain(&self) -> Seq<char> {
        self.target_chain@
    }

    /// The standalone metrics this pipeline registers.
    pub closed spec fn spec_standalone_metrics(&self) -> Seq<crate::metrics::StandaloneMetricView> {
        spec_standalone_views(self.standalone_metrics@)
    }

    /// A binding is well formed when its signer is, its genesis identifier
    /// has hash length, its lookup key is exactly the one the target chain
    /// exposes for the source chain, and its metrics namespace is derived
    /// from the chain names.
    pub closed spec fn wf(&self) -> bool {
        &&& self.signer.wf()
        &&& self.genesis_hash@.len() == 32
        &&& self.lookup_key@ == spec_lookup_key(self.source_chain@)
        &&& self.metrics_prefix@ == spec_metrics_prefix(self.source_chain@, self.target_chain@)
    }

    /// Builds a pipeline binding. A lookup key that is not the identifier
    /// the target chain exposes for the source chain, or a genesis
    /// identifier of the wrong length, is a configuration error: the
    /// pipeline refuses to start.
    pub fn new(
        source_chain: String,
        target_chain: String,
        lookup_key: String,
        standalone_metrics: Vec<StandaloneMetric>,
        signer: SigningIdentityResolver,
        genesis_hash: Vec<u8>,
    ) -> (r: Result<FinalityPipeline, BindingError>)
        requires
            signer.wf(),
        ensures
            r is Ok <==> (lookup_key@ == spec_lookup_key(source_chain@) && genesis_hash@.len()
                == 32),
            r matches Ok(p) ==> p.wf() && p.spec_seed() == signer.spec_seed()
                && p.spec_genesis_hash() == genesis_hash@ && p.spec_source_chain()
                == source_chain@ && p.spec_target_chain() == target_chain@
                && p.spec_standalone_metrics() == spec_standalone_views(standalone_metrics@),
            r matches Err(e) ==> e == (if lookup_key@ != spec_lookup_key(source_chain@) {
                BindingError::LookupKeyMismatch
            } else {
                BindingError::InvalidGenesisLength
            }),
    {
        let expected = best_finalized_source_header_key(&source_chain);
        let key_matches = lookup_key == expected;
        if !key_matches {
            Err(BindingError::LookupKeyMismatch)
        } else if genesis_hash.len() != 32 {
            Err(BindingError::InvalidGenesisLength)
        } else {
            let metrics_prefix = source_chain.clone().concat("_to_").concat(
                target_chain.as_str(),
            );
            Ok(
                FinalityPipeline {
                    source_chain,
                    target_chain,
                    lookup_key,
                    metrics_prefix,
                    standalone_metrics,
                    signer,
                    genesis_hash,
                },
            )
        }
    }

    /// The lookup key the engine uses against the target chain: the
    /// engine-facing declaration of this binding.
    pub fn best_finalized_source_header_id_at_target(&self) -> (r: &String)
        requires
            self.wf(),
        ensures
            r@ == spec_lookup_key(self.spec_source_chain()),
    {
        &self.lookup_key
    }

    /// Augments the base metrics configuration with this pipeline's entries:
    /// the engine's relay-progress metrics under the pipeline's namespace,
    /// then the declared standalone metrics. Fails as a whole on the first
    /// name conflict.
    pub fn customize_metrics(&self, params: MetricsParams) -> (r: Result<
        MetricsParams,
        BindingError,
    >)
        requires
            self.wf(),
        ensures
            r is Ok <==> spec_no_conflict(
                params@.metrics,
                spec_added_entries(
                    spec_metrics_prefix(self.spec_source_chain(), self.spec_target_chain()),
                    self.spec_standalone_metrics(),
                ),
            ),
            r matches Ok(out) ==> (out@ == MetricsParamsView {
                address: params@.address,
                metrics: params@.metrics + spec_added_entries(
                    spec_metrics_prefix(self.spec_source_chain(), self.spec_target_chain()),
                    self.spec_standalone_metrics(),
                ),
            }),
            r matches Err(e) ==> e == BindingError::DuplicateMetricName,
    {
        crate::metrics::customize_metrics(&self.metrics_prefix, &self.standalone_metrics, params)
    }

    /// The account under which this pipeline signs submissions: a pure
    /// function of the held key material.
    pub fn transactions_author(&self) -> (r: AccountId)
        requires
            self.wf(),
        ensures
            r.bytes@ == ed25519_public_key(self.spec_seed()),
            r.bytes@.len() == 32,
    {
        self.signer.transactions_author()
    }

    /// Encodes the finality proof for `header` into a signed submission
    /// transaction carrying `transaction_nonce`, bound to the target chain's
    /// genesis identifier.
    pub fn make_submit_finality_proof_transaction(
        &self,
        transaction_nonce: u32,
        header: &SyncHeader,
        justification: &Justification,
    ) -> (r: SubmissionTransaction)
        requires
            self.wf(),
            header.wf(),
            justification.wf(),
        ensures
            r.bytes@ == spec_submission_bytes(
                self.spec_seed(),
                transaction_nonce,
                header.height,
                header.hash@,
                justification.bytes@,
                self.spec_genesis_hash(),
            ),
            ed25519_verifies(
                ed25519_public_key(self.spec_seed()),
                spec_signing_payload(
                    spec_encode_call(header.height, header.hash@, justification.bytes@),
                    transaction_nonce,
                    self.spec_genesis_hash(),
                ),
                ed25519_signature(
                    self.spec_seed(),
                    spec_signing_payload(
                        spec_encode_call(header.height, header.hash@, justification.bytes@),
                        transaction_nonce,
                        self.spec_genesis_hash(),
                    ),
                ),
            ),
    {
        crate::transaction::build_submission_transaction(
            &self.signer,
            &self.genesis_hash,
            transaction_nonce,
            header,
            justification,
        )
    }
}

/// The concrete binding this relay deployment runs: headers of the Rococo
/// chain proven final to the Millau chain.
pub fn rococo_headers_to_millau(
    standalone_metrics: Vec<StandaloneMetric>,
    signer: SigningIdentityResolver,
    genesis_hash: Vec<u8>,
) -> (r: Result<FinalityPipeline, BindingError>)
    requires
        signer.wf(),
    ensures
        r is Ok <==> genesis_hash@.len() == 32,
        r matches Ok(p) ==> p.wf() && p.spec_seed() == signer.spec_seed() && p.spec_genesis_hash()
            == genesis_hash@ && p.spec_source_chain() == "Rococo"@ && p.spec_target_chain()
            == "Millau"@ && p.spec_standalone_metrics() == spec_standalone_views(
            standalone_metrics@,
        ),
        r matches Err(e) ==> e == BindingError::InvalidGenesisLength,
{
    let source_chain = String::from_str("Rococo");
    let target_chain = String::from_str("Millau");
    let lookup_key = best_finalized_source_header_key(&source_chain);
    FinalityPipeline::new(
        source_chain,
        target_chain,
        lookup_key,
        standalone_metrics,
        signer,
        genesis_hash,
    )
}

/// The auxiliary price-feed metrics this deployment registers alongside the
/// relay's own: two externally polled quotes used for dashboard
/// cross-reference.
pub fn price_feed_metrics() -> (r: Vec<StandaloneMetric>)
    ensures
        r@.len() == 2,
        r@[0].name@ == "polkadot_price"@,
        r@[0].url@ == "https://api.coingecko.com/api/v3/simple/price?ids=Polkadot&vs_currencies=usd"@,
        r@[0].json_path@ == "$.polkadot.usd"@,
        r@[0].label@ == "Polkadot price in USD"@,
        r@[1].name@ == "kusama_price"@,
        r@[1].url@ == "https://api.coingecko.com/api/v3/simple/price?ids=Kusama&vs_currencies=usd"@,
        r@[1].json_path@ == "$.kusama.usd"@,
        r@[1].label@ == "Kusama price in USD"@,
{
    let mut out: Vec<StandaloneMetric> = Vec::new();
    out.push(
        StandaloneMetric {
            url: String::from_str(
                "https://api.coingecko.com/api/v3/simple/price?ids=Polkadot&vs_currencies=usd",
            ),
            json_path: String::from_str("$.polkadot.usd"),
            name: String::from_str("polkadot_price"),
            label: String::from_str("Polkadot price in USD"),
        },
    );
    out.push(
        StandaloneMetric {
            url: String::from_str(
                "https://api.coingecko.com/api/v3/simple/price?ids=Kusama&vs_currencies=usd",
            ),
            json_path: String::from_str("$.kusama.usd"),
            name: String::from_str("kusama_price"),
            label: String::from_str("Kusama price in USD"),
        },
    );
    out
}

} // verus!
