use vstd::prelude::*;
use crate::bundle::{parse_bundle, spec_parse_bundle, BundleParts};
use crate::cert::{cert_info_of, match_identity, parse_certificate, spec_identity_in};
use crate::errors::VerifyError;
use crate::pae::{construct_pae, spec_pae};
use crate::sigverify::{key_supported, signature_valid, spec_key_supported, spec_signature_valid};

verus! {

/// What verifying one manifest yields: the decoded payload bytes, or
/// the first failure along the pipeline — bundle decoding, certificate
/// parsing, recognition of the key's algorithm, signature verification
/// over the PAE, then identity matching against the RFC822 subject
/// alternative names.
pub open spec fn spec_verify_manifest(text: Seq<u8>, expected: Seq<u8>) -> Result<
    Seq<u8>,
    VerifyError,
> {
    match spec_parse_bundle(text) {
        None => Err(VerifyError::MalformedBundle),
        Some((cert, payload, ptype, sig)) => match cert_info_of(cert) {
            None => Err(VerifyError::MalformedCertificate),
            Some((spki, sans_opt)) => if !spec_key_supported(spki) {
                Err(VerifyError::UnsupportedAlgorithm)
            } else if !spec_signature_valid(spki, sig, spec_pae(ptype, payload)) {
                Err(VerifyError::SignatureInvalid)
            } else {
                match sans_opt {
                    None => Err(VerifyError::MalformedCertificate),
                    Some(sans) => if spec_identity_in(sans, expected) {
                        Ok(payload)
                    } else {
                        Err(VerifyError::IdentityMismatch)
                    },
                }
            },
        },
    }
}

/// Verifies a fetched manifest: decodes the bundle, reconstructs the
/// DSSE Pre-Authentication Encoding of its payload, checks the
/// signature against the leaf certificate's key, and matches the
/// expected signer identity against the certificate's RFC822 subject
/// alternative names. Returns the decoded payload bytes on success.
pub fn verify_signature_with_pae(text: &[u8], expected_identity: &[u8]) -> (r: Result<
    Vec<u8>,
    VerifyError,
>)
    ensures
        match spec_verify_manifest(text@, expected_identity@) {
            Ok(p) => r matches Ok(v) && v@ == p,
            Err(e) => r == Err::<Vec<u8>, VerifyError>(e),
        },
{
    let BundleParts { cert_der, payload, payload_type, sig } = match parse_bundle(text) {
        Ok(b) => b,
        Err(e) => {
            return Err(e);
        },
    };
    let (spki, sans_opt) = match parse_certificate(cert_der.as_slice()) {
        Some(info) => info,
        None => {
            return Err(VerifyError::MalformedCertificate);
        },
    };
    if !key_supported(spki.as_slice()) {
        return Err(VerifyError::UnsupportedAlgorithm);
    }
    let pae = construct_pae(payload_type.as_slice(), payload.as_slice());
    if !signature_valid(spki.as_slice(), sig.as_slice(), pae.as_slice()) {
        return Err(VerifyError::SignatureInvalid);
    }
    let sans = match sans_opt {
        Some(s) => s,
        None => {
            return Err(VerifyError::MalformedCertificate);
        },
    };
    if !match_identity(&sans, expected_identity) {
        return Err(VerifyError::IdentityMismatch);
    }
    Ok(payload)
}

/// Verification completeness: a bundle whose signature verifies over
/// the PAE of its declared payload type and payload, under the key of
/// its own certificate, and whose certificate carries a matching
/// RFC822 identity, verifies and yields exactly the decoded payload.
pub proof fn lemma_verification_completeness(
    text: Seq<u8>,
    expected: Seq<u8>,
    cert: Seq<u8>,
    payload: Seq<u8>,
    ptype: Seq<u8>,
    sig: Seq<u8>,
    spki: Seq<u8>,
    sans: Seq<Seq<u8>>,
)
    requires
        spec_parse_bundle(text) == Some((cert, payload, ptype, sig)),
        cert_info_of(cert) == Some((spki, Some(sans))),
        spec_key_supported(spki),
        spec_signature_valid(spki, sig, spec_pae(ptype, payload)),
        spec_identity_in(sans, expected),
    ensures
        spec_verify_manifest(text, expected) == Ok::<Seq<u8>, VerifyError>(payload),
{
}

/// Identity mismatch: where no RFC822 subject alternative name equals
/// the expected identity up to ASCII case, verification fails with
/// `IdentityMismatch` and no payload is returned, whatever the
/// signature.
pub proof fn lemma_identity_mismatch_returns_no_payload(
    text: Seq<u8>,
    expected: Seq<u8>,
    cert: Seq<u8>,
    payload: Seq<u8>,
    ptype: Seq<u8>,
    sig: Seq<u8>,
    spki: Seq<u8>,
    sans: Seq<Seq<u8>>,
)
    requires
        spec_parse_bundle(text) == Some((cert, payload, ptype, sig)),
        cert_info_of(cert) == Some((spki, Some(sans))),
        !spec_identity_in(sans, expected),
    ensures
        !(spec_verify_manifest(text, expected) is Ok),
        spec_key_supported(spki) && spec_signature_valid(spki, sig, spec_pae(ptype, payload))
            ==> spec_verify_manifest(text, expected) == Err::<Seq<u8>, VerifyError>(
            VerifyError::IdentityMismatch,
        ),
{
}

} // verus!
