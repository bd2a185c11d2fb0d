use vstd::prelude::*;
use crate::b64::{b64_decoded, base64_decode};
use crate::errors::VerifyError;
use crate::jsonval::{JsonData, as_array, as_str_bytes, get_field, json_of, parse_json, spec_obj_field, spec_str_field};

verus! {

/// The four fields a bundle must carry, already base64-decoded where
/// the wire form is base64.
pub struct BundleParts {
    /// DER of the leaf certificate.
    pub cert_der: Vec<u8>,
    /// The DSSE payload bytes.
    pub payload: Vec<u8>,
    /// The DSSE payload type, a media type string.
    pub payload_type: Vec<u8>,
    /// The signature bytes of `signatures[0]`.
    pub sig: Vec<u8>,
}

/// The base64 text fields of a bundle document, before decoding:
/// (certificate rawBytes, payload, payload type, first signature).
pub open spec fn spec_bundle_raw(j: JsonData) -> Option<(Seq<u8>, Seq<u8>, Seq<u8>, Seq<u8>)> {
    let cert_b64 = match spec_obj_field(j, "verificationMaterial"@) {
        Some(vm) => match spec_obj_field(vm, "certificate"@) {
            Some(c) => spec_str_field(c, "rawBytes"@),
            None => None,
        },
        None => None,
    };
    match spec_obj_field(j, "dsseEnvelope"@) {
        Some(env) => match (cert_b64, spec_str_field(env, "payload"@), spec_str_field(
            env,
            "payloadType"@,
        )) {
            (Some(cb), Some(pb), Some(pt)) => match spec_obj_field(env, "signatures"@) {
                Some(JsonData::Arr(sigs)) => if sigs.len() > 0 {
                    match spec_str_field(sigs[0], "sig"@) {
                        Some(sb) => Some((cb, pb, pt, sb)),
                        None => None,
                    }
                } else {
                    None
                },
                _ => None,
            },
            _ => None,
        },
        None => None,
    }
}

/// What decoding a bundle returns for the given manifest bytes:
/// `None` where the text is not JSON, a required field is missing, or
/// a base64 field does not decode; otherwise the decoded
/// (certificate DER, payload, payload type, signature).
pub open spec fn spec_parse_bundle(b: Seq<u8>) -> Option<(Seq<u8>, Seq<u8>, Seq<u8>, Seq<u8>)> {
    match json_of(b) {
        None => None,
        Some(j) => match spec_bundle_raw(j) {
            None => None,
            Some((cb, pb, pt, sb)) => match (b64_decoded(cb), b64_decoded(pb), b64_decoded(sb)) {
                (Some(cert), Some(pay), Some(sig)) => Some((cert, pay, pt, sig)),
                _ => None,
            },
        },
    }
}

/// Decodes a bundle: parses the manifest JSON, extracts the leaf
/// certificate, payload, payload type and first signature, and
/// base64-decodes the base64 fields. Any missing field or failed
/// decode is `MalformedBundle`.
pub fn parse_bundle(text: &[u8]) -> (r: Result<BundleParts, VerifyError>)
    ensures
        match spec_parse_bundle(text@) {
            Some(parts) => r matches Ok(b) && b.cert_der@ == parts.0 && b.payload@ == parts.1
                && b.payload_type@ == parts.2 && b.sig@ == parts.3,
            None => r == Err::<BundleParts, VerifyError>(VerifyError::MalformedBundle),
        },
{
    let j = match parse_json(text) {
        Some(v) => v,
        None => {
            return Err(VerifyError::MalformedBundle);
        },
    };
    let vm = match get_field(&j, "verificationMaterial") {
        Some(v) => v,
        None => {
            return Err(VerifyError::MalformedBundle);
        },
    };
    let cert = match get_field(vm, "certificate") {
        Some(v) => v,
        None => {
            return Err(VerifyError::MalformedBundle);
        },
    };
    let raw = match get_field(cert, "rawBytes") {
        Some(v) => v,
        None => {
            return Err(VerifyError::MalformedBundle);
        },
    };
    let cert_b64 = match as_str_bytes(raw) {
        Some(v) => v,
        None => {
            return Err(VerifyError::MalformedBundle);
        },
    };
    let env = match get_field(&j, "dsseEnvelope") {
        Some(v) => v,
        None => {
            return Err(VerifyError::MalformedBundle);
        },
    };
    let payload_field = match get_field(env, "payload") {
        Some(v) => v,
        None => {
            return Err(VerifyError::MalformedBundle);
        },
    };
    let payload_b64 = match as_str_bytes(payload_field) {
        Some(v) => v,
        None => {
            return Err(VerifyError::MalformedBundle);
        },
    };
    let ptype_field = match get_field(env, "payloadType") {
        Some(v) => v,
        None => {
            return Err(VerifyError::MalformedBundle);
        },
    };
    let payload_type = match as_str_bytes(ptype_field) {
        Some(v) => v,
        None => {
            return Err(VerifyError::MalformedBundle);
        },
    };
    let sigs_field = match get_field(env, "signatures") {
        Some(v) => v,
        None => {
            return Err(VerifyError::MalformedBundle);
        },
    };
    let sigs = match as_array(sigs_field) {
        Some(v) => v,
        None => {
            return Err(VerifyError::MalformedBundle);
        },
    };
    if sigs.len() == 0 {
        return Err(VerifyError::MalformedBundle);
    }
    let sig_field = match get_field(&sigs[0], "sig") {
        Some(v) => v,
        None => {
            return Err(VerifyError::MalformedBundle);
        },
    };
    let sig_b64 = match as_str_bytes(sig_field) {
        Some(v) => v,
        None => {
            return Err(VerifyError::MalformedBundle);
        },
    };
    let cert_der = match base64_decode(cert_b64.as_slice()) {
        Some(v) => v,
        None => {
            return Err(VerifyError::MalformedBundle);
        },
    };
    let payload = match base64_decode(payload_b64.as_slice()) {
        Some(v) => v,
        None => {
            return Err(VerifyError::MalformedBundle);
        },
    };
    let sig = match base64_decode(sig_b64.as_slice()) {
        Some(v) => v,
        None => {
            return Err(VerifyError::MalformedBundle);
        },
    };
    Ok(BundleParts { cert_der, payload, payload_type, sig })
}

} // verus!
