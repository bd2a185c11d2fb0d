use vstd::prelude::*;
use crate::literals::{
    lit_err_identity_mismatch, lit_err_malformed_bundle, lit_err_malformed_certificate,
    lit_err_malformed_predicate, lit_err_malformed_statement, lit_err_signature_invalid,
    lit_err_unsupported_algorithm, spec_err_identity_mismatch, spec_err_malformed_bundle,
    spec_err_malformed_certificate, spec_err_malformed_predicate, spec_err_malformed_statement,
    spec_err_signature_invalid, spec_err_unsupported_algorithm,
};

verus! {

/// Why verifying one fetched manifest failed.
#[derive(Clone, Copy, Debug, PartialEq, Eq, Structural)]
pub enum VerifyError {
    /// The manifest is not a bundle: JSON parsing failed, a required
    /// field is missing, or a base64 field did not decode.
    MalformedBundle,
    /// The signature does not verify over the PAE with the leaf
    /// certificate's key.
    SignatureInvalid,
    /// The leaf certificate's subject public key carries an algorithm
    /// the signature verifier does not recognize.
    UnsupportedAlgorithm,
    /// The leaf certificate did not parse, or its subject-alternative-
    /// name extension is absent or unreadable.
    MalformedCertificate,
    /// No RFC822 subject alternative name equals the expected identity.
    IdentityMismatch,
    /// The payload is not an in-toto statement.
    MalformedStatement,
    /// The declared predicate type is recognized but its payload does
    /// not fit that shape.
    MalformedPredicate,
}

/// The name under which a verification failure is reported.
pub open spec fn spec_verify_error_name(e: VerifyError) -> Seq<u8> {
    match e {
        VerifyError::MalformedBundle => spec_err_malformed_bundle(),
        VerifyError::SignatureInvalid => spec_err_signature_invalid(),
        VerifyError::UnsupportedAlgorithm => spec_err_unsupported_algorithm(),
        VerifyError::MalformedCertificate => spec_err_malformed_certificate(),
        VerifyError::IdentityMismatch => spec_err_identity_mismatch(),
        VerifyError::MalformedStatement => spec_err_malformed_statement(),
        VerifyError::MalformedPredicate => spec_err_malformed_predicate(),
    }
}

impl VerifyError {
    /// The error's name, as reported in aggregated error messages.
    pub fn name(&self) -> (r: Vec<u8>)
        ensures
            r@ == spec_verify_error_name(*self),
    {
        match self {
            VerifyError::MalformedBundle => lit_err_malformed_bundle(),
            VerifyError::SignatureInvalid => lit_err_signature_invalid(),
            VerifyError::UnsupportedAlgorithm => lit_err_unsupported_algorithm(),
            VerifyError::MalformedCertificate => lit_err_malformed_certificate(),
            VerifyError::IdentityMismatch => lit_err_identity_mismatch(),
            VerifyError::MalformedStatement => lit_err_malformed_statement(),
            VerifyError::MalformedPredicate => lit_err_malformed_predicate(),
        }
    }
}

} // verus!
