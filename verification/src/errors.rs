//! Errors of the binding layer. All of them are configuration or encoding
//! faults that are fatal for pipeline startup or for the current relay round;
//! nothing here is retried.

use vstd::prelude::*;

verus! {

/// The single error type of the binding layer.
#[derive(Clone, Copy, Debug, PartialEq, Eq, Structural)]
pub enum BindingError {
    /// The lookup key handed to the pipeline does not match the query
    /// identifier that the target chain exposes for the source chain.
    LookupKeyMismatch,
    /// The signing key material does not have the expected byte length.
    InvalidKeyLength,
    /// The genesis identifier of the target chain does not have the expected
    /// byte length.
    InvalidGenesisLength,
    /// A header hash does not have the expected byte length.
    InvalidHashLength,
    /// A justification is too large to be framed by the transaction encoding.
    JustificationTooLarge,
    /// Registering a metric would reuse a name that the configuration already
    /// holds.
    DuplicateMetricName,
}

impl BindingError {
    /// The step that failed, as a message for the startup sequence or the
    /// relay engine.
    pub open spec fn spec_message(self) -> Seq<char> {
        match self {
            BindingError::LookupKeyMismatch => "pipeline configuration: lookup key mismatch"@,
            BindingError::InvalidKeyLength => "pipeline configuration: signing key must be 32 bytes"@,
            BindingError::InvalidGenesisLength => "pipeline configuration: genesis hash must be 32 bytes"@,
            BindingError::InvalidHashLength => "transaction encoding: header hash must be 32 bytes"@,
            BindingError::JustificationTooLarge => "transaction encoding: justification too large"@,
            BindingError::DuplicateMetricName => "metrics registration: duplicate metric name"@,
        }
    }

    /// A human-readable message naming the step that failed.
    pub fn message(&self) -> (r: &'static str)
        ensures
            r@ == self.spec_message(),
    {
        match self {
            BindingError::LookupKeyMismatch => "pipeline configuration: lookup key mismatch",
            BindingError::InvalidKeyLength => "pipeline configuration: signing key must be 32 bytes",
            BindingError::InvalidGenesisLength => "pipeline configuration: genesis hash must be 32 bytes",
            BindingError::InvalidHashLength => "transaction encoding: header hash must be 32 bytes",
            BindingError::JustificationTooLarge => "transaction encoding: justification too large",
            BindingError::DuplicateMetricName => "metrics registration: duplicate metric name",
        }
    }
}

} // verus!
