use chainsights_client::artifact::{check_artifact_digest, ArtifactCheck};
use chainsights_client::digest::{sha256_digest, to_hex_lower};
use chainsights_client::filter::{filter_releases, select_artifacts};
use chainsights_client::model::AggregatedCatalogData;
use chainsights_client::pae::construct_pae;
use p256::ecdsa::signature::Signer;
use p256::pkcs8::DecodePrivateKey;
use chainsights_client::traversal::Traversal;

const PAYLOAD_TYPE: &str = "application/vnd.in-toto+json";
const IDENT: &str = "supply@example.com";
const ROOT: &str = "https://example.com/root.jsonl";
const C1: &str = "https://example.com/c1.jsonl";
const C2: &str = "https://example.com/c2.jsonl";
const R1: &str = "https://example.com/c1-r1.jsonl";
const R2: &str = "https://example.com/c1-r2.jsonl";
const SBOM: &str = "https://example.com/sbom.json";
const SBOM_BODY: &str = "{\"spdxVersion\":\"SPDX-2.3\"}";

fn b64(data: &[u8]) -> String {
    base64::Engine::encode(&base64::engine::general_purpose::STANDARD, data)
}

fn make_bundle(payload: &str, identity: &str) -> String {
    let mut params = rcgen::CertificateParams::default();
    params.subject_alt_names = vec![rcgen::SanType::Rfc822Name(identity.try_into().unwrap())];
    let kp = rcgen::KeyPair::generate().unwrap();
    let cert = params.self_signed(&kp).unwrap();
    let cert_der: Vec<u8> = cert.der().as_ref().to_vec();
    let pae = construct_pae(PAYLOAD_TYPE.as_bytes(), payload.as_bytes());
    let sk = p256::ecdsa::SigningKey::from_pkcs8_der(&kp.serialize_der()).unwrap();
    let sig: p256::ecdsa::DerSignature = sk.sign(&pae);
    format!(
        "{{\"verificationMaterial\":{{\"certificate\":{{\"rawBytes\":\"{}\"}}}},\"dsseEnvelope\":{{\"payload\":\"{}\",\"payloadType\":\"{}\",\"signatures\":[{{\"sig\":\"{}\"}}]}}}}",
        b64(&cert_der),
        b64(payload.as_bytes()),
        PAYLOAD_TYPE,
        b64(sig.as_bytes()),
    )
}

fn statement(predicate_type: &str, predicate: &str) -> String {
    format!(
        "{{\"_type\":\"https://in-toto.io/Statement/v1\",\"subject\":[{{\"name\":\"m\",\"digest\":{{\"sha256\":\"00\"}}}}],\"predicateType\":\"{}\",\"predicate\":{}}}",
        predicate_type,
        predicate
    )
}

fn catalog_manifest(component_uris: &[&str]) -> String {
    let comps: Vec<String> = component_uris
        .iter()
        .enumerate()
        .map(|(i, uri)| {
            format!(
                "{{\"name\":\"core-{}\",\"componentPurl\":\"pkg:chainsights/example.com/core-{}\",\"componentAttestationLink\":{{\"uri\":\"{}\",\"expectedSignerIdentity\":\"{}\"}}}}",
                i, i, uri, IDENT
            )
        })
        .collect();
    let pred = format!(
        "{{\"timestamp\":\"2024-01-01T00:00:00Z\",\"components\":[{}]}}",
        comps.join(",")
    );
    make_bundle(&statement("https://chainsights.rest/catalog/v1", &pred), IDENT)
}

fn component_manifest(name: &str, release_uris: &[&str]) -> String {
    let rels: Vec<String> = release_uris
        .iter()
        .map(|uri| {
            format!(
                "{{\"uri\":\"{}\",\"expectedSignerIdentity\":\"{}\"}}",
                uri, IDENT
            )
        })
        .collect();
    let pred = format!(
        "{{\"timestamp\":\"2024-01-01T00:00:00Z\",\"purl\":\"pkg:chainsights/example.com/{}\",\"name\":\"{}\",\"repositories\":[],\"releaseAttestations\":[{}]}}",
        name,
        name,
        rels.join(",")
    );
    make_bundle(&statement("https://chainsights.rest/component/v1", &pred), IDENT)
}

fn release_manifest(purl_version: &str, sbom_sha256: &str) -> String {
    let purl = if purl_version.is_empty() {
        "pkg:chainsights/example.com/core-0".to_string()
    } else {
        format!("pkg:chainsights/example.com/core-0@{}", purl_version)
    };
    let pred = format!(
        "{{\"timestamp\":\"2024-01-01T00:00:00Z\",\"purl\":\"{}\",\"name\":\"v{}\",\"metadataLinks\":[{{\"uri\":\"{}\",\"digest\":{{\"sha256\":\"{}\"}},\"mediaType\":\"application/spdx+json\"}}]}}",
        purl, purl_version, SBOM, sbom_sha256
    );
    make_bundle(&statement("https://chainsights.rest/release/v1", &pred), IDENT)
}

fn sbom_hex() -> String {
    String::from_utf8(to_hex_lower(&sha256_digest(SBOM_BODY.as_bytes()))).unwrap()
}

/// Drives a traversal against in-memory manifests and records which
/// URIs were fetched.
fn run(fixtures: &[(&str, String)], max_depth: u64) -> (AggregatedCatalogData, Vec<String>) {
    let mut t = Traversal::new(ROOT.as_bytes().to_vec(), IDENT.as_bytes().to_vec(), max_depth);
    let mut fetched: Vec<String> = Vec::new();
    while let Some((uri, _identity)) = t.pending_fetch() {
        let uri_s = String::from_utf8(uri).unwrap();
        fetched.push(uri_s.clone());
        let result = match fixtures.iter().find(|(u, _)| *u == uri_s) {
            Some((_, body)) => Ok(body.clone().into_bytes()),
            None => Err(b"HTTP status 404".to_vec()),
        };
        t.step(result);
    }
    (t.finish(), fetched)
}

fn happy_fixtures() -> Vec<(&'static str, String)> {
    vec![
        (ROOT, catalog_manifest(&[C1])),
        (C1, component_manifest("core-0", &[R1])),
        (R1, release_manifest("1.2.0", &sbom_hex())),
    ]
}

fn msg(pair: &(Vec<u8>, Vec<u8>)) -> (String, String) {
    (
        String::from_utf8(pair.0.clone()).unwrap(),
        String::from_utf8(pair.1.clone()).unwrap(),
    )
}

#[test]
fn happy_path_domain_flow() {
    let (agg, fetched) = run(&happy_fixtures(), 10);
    assert!(agg.root_error.is_none());
    assert!(agg.component_errors.is_empty());
    assert!(agg.catalog_predicate.is_some());
    assert_eq!(agg.components.len(), 1);
    let comp = &agg.components[0];
    assert_eq!(comp.component_link_uri, C1.as_bytes());
    assert!(comp.release_errors.is_empty());
    assert_eq!(comp.releases.len(), 1);
    let rel = &comp.releases[0];
    assert_eq!(rel.release_link_uri, R1.as_bytes());
    assert_eq!(rel.metadata_artifacts.len(), 1);
    assert_eq!(rel.metadata_artifacts[0].uri, SBOM.as_bytes());
    assert_eq!(fetched, vec![ROOT.to_string(), C1.to_string(), R1.to_string()]);
}

#[test]
fn cycle_is_reported_once_without_refetch() {
    let fixtures = vec![(ROOT, catalog_manifest(&[ROOT]))];
    let (agg, fetched) = run(&fixtures, 10);
    assert!(agg.catalog_predicate.is_some());
    assert_eq!(agg.components.len(), 0);
    assert_eq!(agg.component_errors.len(), 1);
    let (uri, m) = msg(&agg.component_errors[0]);
    assert_eq!(uri, ROOT);
    assert_eq!(
        m,
        format!("Cycle detected: URI '{}' already visited", ROOT)
    );
    // the root URI was fetched exactly once
    assert_eq!(fetched.iter().filter(|u| *u == ROOT).count(), 1);
}

#[test]
fn depth_two_still_processes_releases() {
    let (agg, fetched) = run(&happy_fixtures(), 2);
    assert_eq!(agg.components.len(), 1);
    assert_eq!(agg.components[0].releases.len(), 1);
    assert!(agg.components[0].release_errors.is_empty());
    assert!(fetched.contains(&R1.to_string()));
}

#[test]
fn depth_one_skips_releases_with_depth_error() {
    let (agg, fetched) = run(&happy_fixtures(), 1);
    assert_eq!(agg.components.len(), 1);
    assert!(agg.components[0].releases.is_empty());
    assert_eq!(agg.components[0].release_errors.len(), 1);
    let (uri, m) = msg(&agg.components[0].release_errors[0]);
    assert_eq!(uri, R1);
    assert_eq!(
        m,
        format!("Maximum traversal depth (1) would be exceeded at URI '{}'", R1)
    );
    assert!(!fetched.contains(&R1.to_string()));
}

#[test]
fn components_and_releases_keep_declaration_order() {
    let fixtures = vec![
        (ROOT, catalog_manifest(&[C1, C2])),
        (C1, component_manifest("core-0", &[R1, R2])),
        (C2, component_manifest("core-1", &[])),
        (R1, release_manifest("1.2.0", &sbom_hex())),
        (R2, release_manifest("1.1.0", &sbom_hex())),
    ];
    let (agg, fetched) = run(&fixtures, 10);
    assert_eq!(agg.components.len(), 2);
    assert_eq!(agg.components[0].component_link_uri, C1.as_bytes());
    assert_eq!(agg.components[1].component_link_uri, C2.as_bytes());
    assert_eq!(agg.components[0].releases.len(), 2);
    assert_eq!(agg.components[0].releases[0].release_link_uri, R1.as_bytes());
    assert_eq!(agg.components[0].releases[1].release_link_uri, R2.as_bytes());
    assert_eq!(
        fetched,
        vec![
            ROOT.to_string(),
            C1.to_string(),
            R1.to_string(),
            R2.to_string(),
            C2.to_string()
        ]
    );
}

#[test]
fn tampered_component_signature_is_recorded_and_walk_continues() {
    let mut comp = component_manifest("core-0", &[R1]).into_bytes();
    let text = String::from_utf8(comp.clone()).unwrap();
    let pos = text.find("\"sig\":\"").unwrap() + "\"sig\":\"".len();
    comp[pos] = if comp[pos] == b'A' { b'B' } else { b'A' };
    let fixtures = vec![
        (ROOT, catalog_manifest(&[C1, C2])),
        (C1, String::from_utf8(comp).unwrap()),
        (C2, component_manifest("core-1", &[])),
    ];
    let (agg, _fetched) = run(&fixtures, 10);
    assert_eq!(agg.component_errors.len(), 1);
    let (uri, m) = msg(&agg.component_errors[0]);
    assert_eq!(uri, C1);
    assert!(m.contains("SignatureInvalid"), "message was {}", m);
    // the other component still went through
    assert_eq!(agg.components.len(), 1);
    assert_eq!(agg.components[0].component_link_uri, C2.as_bytes());
}

#[test]
fn non_catalog_root_sets_root_error() {
    let fixtures = vec![(ROOT, release_manifest("1.0.0", &sbom_hex()))];
    let (agg, _fetched) = run(&fixtures, 10);
    assert!(agg.catalog_predicate.is_none());
    let m = String::from_utf8(agg.root_error.unwrap()).unwrap();
    assert_eq!(
        m,
        format!("Expected Catalog predicate at root URI '{}', but found Release", ROOT)
    );
}

#[test]
fn fetch_failure_is_recorded_per_component() {
    let fixtures = vec![(ROOT, catalog_manifest(&[C1]))];
    let (agg, _fetched) = run(&fixtures, 10);
    assert_eq!(agg.component_errors.len(), 1);
    let (uri, m) = msg(&agg.component_errors[0]);
    assert_eq!(uri, C1);
    assert_eq!(m, "HTTP status 404");
}

#[test]
fn blank_manifest_reports_manifest_empty() {
    let fixtures = vec![(ROOT, "  \n \n".to_string())];
    let (agg, _fetched) = run(&fixtures, 10);
    let m = String::from_utf8(agg.root_error.unwrap()).unwrap();
    assert!(m.contains("ManifestEmpty"), "message was {}", m);
}

fn two_release_agg() -> AggregatedCatalogData {
    let fixtures = vec![
        (ROOT, catalog_manifest(&[C1])),
        (C1, component_manifest("core-0", &[R1, R2])),
        (R1, release_manifest("1.2.0", &sbom_hex())),
        (R2, release_manifest("1.1.0", &sbom_hex())),
    ];
    let (agg, _fetched) = run(&fixtures, 10);
    agg
}

#[test]
fn purl_filter_selects_matching_version_only() {
    let agg = two_release_agg();
    let out = filter_releases(&agg, b"core-0", Some(&b"1.2.0".to_vec()), false);
    assert_eq!(out.component_index, Some(0));
    assert!(!out.warned_no_version);
    assert_eq!(out.releases.len(), 1);
    assert_eq!(out.releases[0].release_link_uri, R1.as_bytes());
}

#[test]
fn purl_filter_without_version_warns_and_selects_none() {
    let agg = two_release_agg();
    let out = filter_releases(&agg, b"core-0", None, false);
    assert_eq!(out.component_index, Some(0));
    assert!(out.warned_no_version);
    assert!(out.releases.is_empty());
}

#[test]
fn purl_filter_all_releases_keeps_every_release() {
    let agg = two_release_agg();
    let out = filter_releases(&agg, b"core-0", Some(&b"1.2.0".to_vec()), true);
    assert!(!out.warned_no_version);
    assert_eq!(out.releases.len(), 2);
}

#[test]
fn purl_filter_unknown_component_selects_nothing() {
    let agg = two_release_agg();
    let out = filter_releases(&agg, b"absent", Some(&b"1.2.0".to_vec()), false);
    assert_eq!(out.component_index, None);
    assert!(out.releases.is_empty());
}

#[test]
fn versionless_release_purl_is_excluded() {
    let fixtures = vec![
        (ROOT, catalog_manifest(&[C1])),
        (C1, component_manifest("core-0", &[R1])),
        (R1, release_manifest("", &sbom_hex())),
    ];
    let (agg, _fetched) = run(&fixtures, 10);
    let out = filter_releases(&agg, b"core-0", Some(&b"1.2.0".to_vec()), false);
    assert_eq!(out.component_index, Some(0));
    assert!(out.releases.is_empty());
}

#[test]
fn sbom_fetch_selection_and_digest() {
    let agg = two_release_agg();
    let out = filter_releases(&agg, b"core-0", Some(&b"1.2.0".to_vec()), false);
    let links = select_artifacts(&out.releases, b"application/spdx+json");
    assert_eq!(links.len(), 1);
    assert_eq!(links[0].uri, SBOM.as_bytes());
    assert_eq!(
        check_artifact_digest(&links[0], SBOM_BODY.as_bytes()),
        ArtifactCheck::Verified
    );
    let none = select_artifacts(&out.releases, b"application/other");
    assert!(none.is_empty());
}
