//! End-to-end tests of the binding layer, run against the real Ed25519
//! implementation.

use finality_binding::errors::BindingError;
use finality_binding::header::Justification;
use finality_binding::header::SyncHeader;
use finality_binding::metrics::MetricEntry;
use finality_binding::metrics::MetricSource;
use finality_binding::metrics::MetricsParams;
use finality_binding::pipeline::best_finalized_source_header_key;
use finality_binding::pipeline::price_feed_metrics;
use finality_binding::pipeline::rococo_headers_to_millau;
use finality_binding::pipeline::FinalityPipeline;
use finality_binding::signer::SigningIdentityResolver;
use finality_binding::transaction::decode_submission_transaction;
use finality_binding::transaction::verify_submission_signature;
use finality_binding::transaction::SubmissionTransaction;

const SEED: [u8; 32] = [7u8; 32];
const OTHER_SEED: [u8; 32] = [9u8; 32];
const GENESIS: [u8; 32] = [0x11u8; 32];

fn resolver(seed: [u8; 32]) -> SigningIdentityResolver {
    SigningIdentityResolver::new(seed.to_vec()).unwrap()
}

fn pipeline() -> FinalityPipeline {
    rococo_headers_to_millau(price_feed_metrics(), resolver(SEED), GENESIS.to_vec()).unwrap()
}

fn sample_header() -> SyncHeader {
    SyncHeader::new(1000, vec![0xabu8; 32]).unwrap()
}

fn sample_justification() -> Justification {
    Justification::new(b"justification-over-header-hash".to_vec()).unwrap()
}

fn empty_params() -> MetricsParams {
    MetricsParams { address: String::from("127.0.0.1:9616"), metrics: Vec::new() }
}

#[test]
fn builder_is_deterministic() {
    let p = pipeline();
    let a = p.make_submit_finality_proof_transaction(7, &sample_header(), &sample_justification());
    let b = p.make_submit_finality_proof_transaction(7, &sample_header(), &sample_justification());
    assert_eq!(a.bytes, b.bytes);
}

#[test]
fn nonce_change_changes_bytes_and_nonce_field_only() {
    let p = pipeline();
    let a = p.make_submit_finality_proof_transaction(7, &sample_header(), &sample_justification());
    let b = p.make_submit_finality_proof_transaction(8, &sample_header(), &sample_justification());
    assert_ne!(a.bytes, b.bytes);
    let da = decode_submission_transaction(&a).unwrap();
    let db = decode_submission_transaction(&b).unwrap();
    assert_eq!(da.nonce, 7);
    assert_eq!(db.nonce, 8);
    // The call payload is unchanged; only nonce and signature move.
    assert_eq!(&a.bytes[100..], &b.bytes[100..]);
    assert_eq!(da.signer, db.signer);
    assert_ne!(da.signature, db.signature);
}

#[test]
fn header_change_changes_call_but_not_nonce_field() {
    let p = pipeline();
    let a = p.make_submit_finality_proof_transaction(7, &sample_header(), &sample_justification());
    let other_header = SyncHeader::new(1001, vec![0xabu8; 32]).unwrap();
    let b = p.make_submit_finality_proof_transaction(7, &other_header, &sample_justification());
    assert_ne!(a.bytes, b.bytes);
    assert_ne!(&a.bytes[100..], &b.bytes[100..]);
    assert_eq!(&a.bytes[96..100], &b.bytes[96..100]);
}

#[test]
fn round_trip_recovers_call_and_nonce() {
    let p = pipeline();
    let header = sample_header();
    let justification = sample_justification();
    let tx = p.make_submit_finality_proof_transaction(7, &header, &justification);
    let d = decode_submission_transaction(&tx).unwrap();
    assert_eq!(d.nonce, 7);
    assert_eq!(d.height, 1000);
    assert_eq!(d.hash, vec![0xabu8; 32]);
    assert_eq!(d.justification, b"justification-over-header-hash".to_vec());
    assert_eq!(d.signer, p.transactions_author().bytes);
}

#[test]
fn signature_verifies_against_public_key_without_secret() {
    let p = pipeline();
    let tx = p.make_submit_finality_proof_transaction(7, &sample_header(), &sample_justification());
    assert!(verify_submission_signature(&tx, &GENESIS.to_vec()));

    // The signature is bound to the genesis identifier: another chain's
    // genesis must reject it.
    assert!(!verify_submission_signature(&tx, &vec![0x22u8; 32]));

    // A tampered byte in the justification must invalidate the signature.
    let mut tampered = tx.bytes.clone();
    let last = tampered.len() - 1;
    tampered[last] ^= 0x01;
    assert!(!verify_submission_signature(
        &SubmissionTransaction { bytes: tampered },
        &GENESIS.to_vec()
    ));
}

#[test]
fn signature_verifies_under_independent_ed25519_check() {
    // Cross-check against ed25519-dalek directly: the embedded signature
    // must verify over call | nonce | genesis under the embedded signer key.
    let p = pipeline();
    let tx = p.make_submit_finality_proof_transaction(7, &sample_header(), &sample_justification());
    let signer_bytes: [u8; 32] = tx.bytes[0..32].try_into().unwrap();
    let signature_bytes: [u8; 64] = tx.bytes[32..96].try_into().unwrap();
    let mut payload = tx.bytes[100..].to_vec();
    payload.extend_from_slice(&tx.bytes[96..100]);
    payload.extend_from_slice(&GENESIS);
    let key = ed25519_dalek::VerifyingKey::from_bytes(&signer_bytes).unwrap();
    let signature = ed25519_dalek::Signature::from_bytes(&signature_bytes);
    assert!(ed25519_dalek::Verifier::verify(&key, &payload, &signature).is_ok());

    // And the embedded signer key is the one dalek derives from the seed,
    // not the seed itself.
    let expected = ed25519_dalek::SigningKey::from_bytes(&SEED).verifying_key().to_bytes();
    assert_eq!(signer_bytes, expected);
    assert_ne!(signer_bytes, SEED);
}

#[test]
fn decode_rejects_malformed_bytes() {
    assert!(decode_submission_transaction(&SubmissionTransaction { bytes: vec![0u8; 10] }).is_none());
    let p = pipeline();
    let tx = p.make_submit_finality_proof_transaction(7, &sample_header(), &sample_justification());
    // Wrong pallet routing byte.
    let mut wrong_pallet = tx.bytes.clone();
    wrong_pallet[100] = 0xee;
    assert!(decode_submission_transaction(&SubmissionTransaction { bytes: wrong_pallet }).is_none());
    // Truncated justification no longer matches its length prefix.
    let mut truncated = tx.bytes.clone();
    truncated.pop();
    assert!(decode_submission_transaction(&SubmissionTransaction { bytes: truncated }).is_none());
}

#[test]
fn transactions_author_is_pure_function_of_key_material() {
    let a = resolver(SEED).transactions_author();
    let b = resolver(SEED).transactions_author();
    assert_eq!(a.bytes, b.bytes);
    let c = resolver(OTHER_SEED).transactions_author();
    assert_ne!(a.bytes, c.bytes);
}

#[test]
fn customize_metrics_adds_engine_and_standalone_entries() {
    let p = pipeline();
    let out = p.customize_metrics(empty_params()).unwrap();
    assert_eq!(out.address, "127.0.0.1:9616");
    let names: Vec<&str> = out.metrics.iter().map(|e| e.name.as_str()).collect();
    assert_eq!(
        names,
        vec![
            "Rococo_to_Millau_best_source_block",
            "Rococo_to_Millau_best_target_block",
            "polkadot_price",
            "kusama_price",
        ]
    );
    let mut unique = names.clone();
    unique.sort();
    unique.dedup();
    assert_eq!(unique.len(), names.len());
}

#[test]
fn customize_metrics_keeps_base_entries() {
    let p = pipeline();
    let base = MetricsParams {
        address: String::from("0.0.0.0:1234"),
        metrics: vec![MetricEntry {
            name: String::from("existing_metric"),
            source: MetricSource::RelayProgress,
        }],
    };
    let out = p.customize_metrics(base).unwrap();
    assert_eq!(out.metrics.len(), 5);
    assert_eq!(out.metrics[0].name, "existing_metric");
    assert_eq!(out.address, "0.0.0.0:1234");
}

#[test]
fn customize_metrics_reports_name_conflict() {
    let p = pipeline();
    let base = MetricsParams {
        address: String::from("127.0.0.1:9616"),
        metrics: vec![MetricEntry {
            name: String::from("polkadot_price"),
            source: MetricSource::RelayProgress,
        }],
    };
    assert!(matches!(
        p.customize_metrics(base),
        Err(BindingError::DuplicateMetricName)
    ));

    let base_engine_clash = MetricsParams {
        address: String::from("127.0.0.1:9616"),
        metrics: vec![MetricEntry {
            name: String::from("Rococo_to_Millau_best_source_block"),
            source: MetricSource::RelayProgress,
        }],
    };
    assert!(matches!(
        p.customize_metrics(base_engine_clash),
        Err(BindingError::DuplicateMetricName)
    ));
}

#[test]
fn price_feed_metrics_describe_both_quotes() {
    let metrics = price_feed_metrics();
    assert_eq!(metrics.len(), 2);
    assert_eq!(metrics[0].name, "polkadot_price");
    assert_eq!(
        metrics[0].url,
        "https://api.coingecko.com/api/v3/simple/price?ids=Polkadot&vs_currencies=usd"
    );
    assert_eq!(metrics[0].json_path, "$.polkadot.usd");
    assert_eq!(metrics[0].label, "Polkadot price in USD");
    assert_eq!(metrics[1].name, "kusama_price");
    assert_eq!(metrics[1].json_path, "$.kusama.usd");
}

#[test]
fn lookup_key_names_source_chain_finality_api() {
    let key = best_finalized_source_header_key(&String::from("Rococo"));
    assert_eq!(key, "RococoFinalityApi_best_finalized");
    let p = pipeline();
    assert_eq!(
        p.best_finalized_source_header_id_at_target(),
        "RococoFinalityApi_best_finalized"
    );
}

#[test]
fn construction_rejects_bad_configuration() {
    assert!(matches!(
        SigningIdentityResolver::new(vec![1u8; 31]),
        Err(BindingError::InvalidKeyLength)
    ));
    assert!(matches!(
        rococo_headers_to_millau(Vec::new(), resolver(SEED), vec![0u8; 31]),
        Err(BindingError::InvalidGenesisLength)
    ));
    let wrong_key = FinalityPipeline::new(
        String::from("Rococo"),
        String::from("Millau"),
        String::from("WrongKey"),
        Vec::new(),
        resolver(SEED),
        GENESIS.to_vec(),
    );
    assert!(matches!(wrong_key, Err(BindingError::LookupKeyMismatch)));
    assert!(matches!(
        SyncHeader::new(1, vec![0u8; 16]),
        Err(BindingError::InvalidHashLength)
    ));
}

#[test]
fn error_messages_name_the_failing_step() {
    assert_eq!(
        BindingError::DuplicateMetricName.message(),
        "metrics registration: duplicate metric name"
    );
    assert_eq!(
        BindingError::LookupKeyMismatch.message(),
        "pipeline configuration: lookup key mismatch"
    );
    assert_eq!(
        BindingError::InvalidKeyLength.message(),
        "pipeline configuration: signing key must be 32 bytes"
    );
}
