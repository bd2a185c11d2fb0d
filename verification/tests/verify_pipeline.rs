use chainsights_client::attestation::verify_signature_with_pae;
use chainsights_client::errors::VerifyError;
use chainsights_client::pae::construct_pae;
use p256::ecdsa::signature::Signer;
use p256::pkcs8::DecodePrivateKey;

const PAYLOAD_TYPE: &str = "application/vnd.in-toto+json";

fn b64(data: &[u8]) -> String {
    base64::Engine::encode(&base64::engine::general_purpose::STANDARD, data)
}

/// A self-signed P-256 certificate carrying the identity as an RFC822
/// subject alternative name, and a DSSE signature over the PAE of the
/// payload, wrapped in a bundle.
fn make_bundle(payload: &str, identity: &str) -> String {
    let mut params = rcgen::CertificateParams::default();
    params.subject_alt_names = vec![rcgen::SanType::Rfc822Name(identity.try_into().unwrap())];
    let kp = rcgen::KeyPair::generate().unwrap();
    let cert = params.self_signed(&kp).unwrap();
    let cert_der: Vec<u8> = cert.der().as_ref().to_vec();

    let pae = construct_pae(PAYLOAD_TYPE.as_bytes(), payload.as_bytes());
    let sk = p256::ecdsa::SigningKey::from_pkcs8_der(&kp.serialize_der()).unwrap();
    let sig: p256::ecdsa::DerSignature = sk.sign(&pae);

    format!(
        "{{\"mediaType\":\"application/vnd.dev.sigstore.bundle+json\",\"verificationMaterial\":{{\"certificate\":{{\"rawBytes\":\"{}\"}}}},\"dsseEnvelope\":{{\"payload\":\"{}\",\"payloadType\":\"{}\",\"signatures\":[{{\"sig\":\"{}\"}}]}}}}",
        b64(&cert_der),
        b64(payload.as_bytes()),
        PAYLOAD_TYPE,
        b64(sig.as_bytes()),
    )
}

fn statement_json(predicate_type: &str, predicate: &str) -> String {
    format!(
        "{{\"_type\":\"https://in-toto.io/Statement/v1\",\"subject\":[{{\"name\":\"m\",\"digest\":{{\"sha256\":\"00\"}}}}],\"predicateType\":\"{}\",\"predicate\":{}}}",
        predicate_type,
        predicate
    )
}

#[test]
fn verification_returns_exact_payload() {
    let payload = statement_json("https://example.com/x/v1", "{}");
    let bundle = make_bundle(&payload, "supply@example.com");
    let out = verify_signature_with_pae(bundle.as_bytes(), b"supply@example.com").unwrap();
    assert_eq!(out, payload.as_bytes());
}

#[test]
fn identity_match_ignores_ascii_case() {
    let payload = statement_json("https://example.com/x/v1", "{}");
    let bundle = make_bundle(&payload, "alice@Example.COM");
    let out = verify_signature_with_pae(bundle.as_bytes(), b"ALICE@example.com").unwrap();
    assert_eq!(out, payload.as_bytes());
}

#[test]
fn identity_mismatch_returns_no_payload() {
    let payload = statement_json("https://example.com/x/v1", "{}");
    let bundle = make_bundle(&payload, "bob@x");
    let r = verify_signature_with_pae(bundle.as_bytes(), b"alice@x");
    assert_eq!(r.unwrap_err(), VerifyError::IdentityMismatch);
}

#[test]
fn tampered_signature_fails() {
    let payload = statement_json("https://example.com/x/v1", "{}");
    let bundle = make_bundle(&payload, "supply@example.com");
    // flip one character inside the base64 of `sig`
    let marker = "\"sig\":\"";
    let pos = bundle.find(marker).unwrap() + marker.len();
    let mut tampered = bundle.clone().into_bytes();
    tampered[pos] = if tampered[pos] == b'A' { b'B' } else { b'A' };
    let r = verify_signature_with_pae(&tampered, b"supply@example.com");
    assert_eq!(r.unwrap_err(), VerifyError::SignatureInvalid);
}

#[test]
fn tampered_payload_fails() {
    let payload = statement_json("https://example.com/x/v1", "{}");
    let bundle = make_bundle(&payload, "supply@example.com");
    let other = statement_json("https://example.com/y/v1", "{}");
    let tampered = bundle.replace(&b64(payload.as_bytes()), &b64(other.as_bytes()));
    assert_ne!(bundle, tampered);
    let r = verify_signature_with_pae(tampered.as_bytes(), b"supply@example.com");
    assert_eq!(r.unwrap_err(), VerifyError::SignatureInvalid);
}

#[test]
fn tampered_payload_type_fails() {
    let payload = statement_json("https://example.com/x/v1", "{}");
    let bundle = make_bundle(&payload, "supply@example.com");
    let tampered = bundle.replace(
        "\"payloadType\":\"application/vnd.in-toto+json\"",
        "\"payloadType\":\"application/vnd.in-toto+jsoX\"",
    );
    assert_ne!(bundle, tampered);
    let r = verify_signature_with_pae(tampered.as_bytes(), b"supply@example.com");
    assert_eq!(r.unwrap_err(), VerifyError::SignatureInvalid);
}

#[test]
fn missing_signatures_is_malformed_bundle() {
    let payload = statement_json("https://example.com/x/v1", "{}");
    let bundle = make_bundle(&payload, "supply@example.com");
    let marker = bundle.find("\"signatures\"").unwrap();
    let truncated = format!("{}\"signatures\":[]}}}}", &bundle[..marker]);
    let r = verify_signature_with_pae(truncated.as_bytes(), b"supply@example.com");
    assert_eq!(r.unwrap_err(), VerifyError::MalformedBundle);
}

#[test]
fn bad_base64_is_malformed_bundle() {
    let payload = statement_json("https://example.com/x/v1", "{}");
    let bundle = make_bundle(&payload, "supply@example.com");
    let tampered = bundle.replace(
        &format!("\"payload\":\"{}\"", b64(payload.as_bytes())),
        "\"payload\":\"!!notbase64!!\"",
    );
    assert_ne!(bundle, tampered);
    let r = verify_signature_with_pae(tampered.as_bytes(), b"supply@example.com");
    assert_eq!(r.unwrap_err(), VerifyError::MalformedBundle);
}

#[test]
fn not_json_is_malformed_bundle() {
    let r = verify_signature_with_pae(b"this is not json", b"a@b");
    assert_eq!(r.unwrap_err(), VerifyError::MalformedBundle);
}

#[test]
fn unsupported_key_algorithm_is_distinguished() {
    let payload = statement_json("https://example.com/x/v1", "{}");
    let bundle = make_bundle(&payload, "supply@example.com");
    // swap the key's named curve inside the certificate for an OID the
    // signature verifier does not know
    let marker = "\"rawBytes\":\"";
    let start = bundle.find(marker).unwrap() + marker.len();
    let end = start + bundle[start..].find('"').unwrap();
    let mut der = base64::Engine::decode(
        &base64::engine::general_purpose::STANDARD,
        &bundle[start..end],
    )
    .unwrap();
    let curve_oid: [u8; 10] = [0x06, 0x08, 0x2a, 0x86, 0x48, 0xce, 0x3d, 0x03, 0x01, 0x07];
    let pos = der.windows(10).position(|w| w == curve_oid).unwrap();
    der[pos + 9] = 0x08;
    let tampered = format!("{}{}{}", &bundle[..start], b64(&der), &bundle[end..]);
    let r = verify_signature_with_pae(tampered.as_bytes(), b"supply@example.com");
    assert_eq!(r.unwrap_err(), VerifyError::UnsupportedAlgorithm);
}

#[test]
fn garbage_certificate_is_malformed_certificate() {
    let payload = statement_json("https://example.com/x/v1", "{}");
    let bundle = make_bundle(&payload, "supply@example.com");
    let marker = "\"rawBytes\":\"";
    let start = bundle.find(marker).unwrap() + marker.len();
    let end = start + bundle[start..].find('"').unwrap();
    let tampered = format!(
        "{}{}{}",
        &bundle[..start],
        b64(b"not a certificate"),
        &bundle[end..]
    );
    let r = verify_signature_with_pae(tampered.as_bytes(), b"supply@example.com");
    assert_eq!(r.unwrap_err(), VerifyError::MalformedCertificate);
}
