use vstd::prelude::*;

verus! {

/// Whether the subject-public-key-info `spki_der` carries a key the
/// signature verifier can read: its algorithm is one of the recognized
/// ones. A pure function of the bytes.
pub uninterp spec fn spec_key_supported(spki_der: Seq<u8>) -> bool;

/// Relies on sigstore's `CosignVerificationKey::try_from_der`: reads
/// the key from the subject-public-key-info DER; it fails exactly where
/// the DER does not spell a key of a recognized algorithm (ECDSA
/// P-256/P-384/P-521, RSA, or Ed25519).
#[verifier::external_body]
pub fn key_supported(spki_der: &[u8]) -> (r: bool)
    ensures
        r == spec_key_supported(spki_der@),
{
    sigstore::crypto::CosignVerificationKey::try_from_der(spki_der).is_ok()
}

/// Whether `sig` is a valid signature over `msg` under the public key
/// carried by the subject-public-key-info `spki_der`. Signature
/// verification is deterministic in its three inputs; a key whose
/// algorithm is not supported never validates.
pub uninterp spec fn spec_signature_valid(spki_der: Seq<u8>, sig: Seq<u8>, msg: Seq<u8>) -> bool;

/// Relies on sigstore's `CosignVerificationKey::try_from_der` and
/// `verify_signature`: reads the key from the subject-public-key-info
/// DER, detecting its algorithm, and checks the raw signature over the
/// message (ECDSA P-256/P-384/P-521, RSA PKCS1, or Ed25519, each with
/// the digest sigstore pairs with it).
#[verifier::external_body]
pub fn signature_valid(spki_der: &[u8], sig: &[u8], msg: &[u8]) -> (r: bool)
    ensures
        r == spec_signature_valid(spki_der@, sig@, msg@),
        r ==> spec_key_supported(spki_der@),
{
    match sigstore::crypto::CosignVerificationKey::try_from_der(spki_der) {
        Ok(key) => key.verify_signature(sigstore::crypto::Signature::Raw(sig), msg).is_ok(),
        Err(_) => false,
    }
}

} // verus!
