use chainsights_client::artifact::{check_artifact_digest, ArtifactCheck};
use chainsights_client::ascii::{bytes_eq, bytes_eq_ignore_case};
use chainsights_client::digest::{sha256_digest, to_hex_lower, verify_sha256_hex};
use chainsights_client::discovery::parse_discovery_records;
use chainsights_client::manifest::first_manifest_line;
use chainsights_client::model::ArtifactLink;
use chainsights_client::pae::{construct_pae, u64_to_decimal};
use chainsights_client::predicate::{parse_predicate, parse_statement};
use chainsights_client::purl::{parse_chainsights_purl, PurlError};

fn b(s: &str) -> Vec<u8> {
    s.as_bytes().to_vec()
}

#[test]
fn pae_is_bit_exact() {
    let pae = construct_pae(b"http://x", b"hi");
    assert_eq!(pae, b"DSSEv1 8 http://x 2 hi".to_vec());
}

#[test]
fn pae_of_empty_parts() {
    let pae = construct_pae(b"", b"");
    assert_eq!(pae, b"DSSEv1 0  0 ".to_vec());
}

#[test]
fn pae_has_no_trailing_newline() {
    let t = "application/vnd.in-toto+json";
    let p: Vec<u8> = (0u8..=255).collect();
    let pae = construct_pae(t.as_bytes(), &p);
    let header = format!("DSSEv1 {} {} {} ", t.len(), t, p.len());
    let mut expected = header.into_bytes();
    expected.extend_from_slice(&p);
    assert_eq!(pae, expected);
}

#[test]
fn decimal_encoding_matches() {
    assert_eq!(u64_to_decimal(0), b"0".to_vec());
    assert_eq!(u64_to_decimal(10), b"10".to_vec());
    assert_eq!(u64_to_decimal(90210), b"90210".to_vec());
    assert_eq!(u64_to_decimal(u64::MAX), b"18446744073709551615".to_vec());
}

#[test]
fn hex_lower_encoding() {
    assert_eq!(to_hex_lower(&[0xbe, 0xef]), b"beef".to_vec());
    assert_eq!(to_hex_lower(&[]), Vec::<u8>::new());
    assert_eq!(to_hex_lower(&[0x00, 0x0a, 0xff]), b"000aff".to_vec());
}

#[test]
fn ascii_case_insensitive_equality() {
    assert!(bytes_eq_ignore_case(b"alice@Example.COM", b"ALICE@example.com"));
    assert!(!bytes_eq_ignore_case(b"alice@x", b"bob@x"));
    assert!(bytes_eq(b"same", b"same"));
    assert!(!bytes_eq(b"same", b"sam"));
}

#[test]
fn sha256_digest_round_trip() {
    let body = b"hello artifact body";
    let hex = to_hex_lower(&sha256_digest(body));
    assert!(verify_sha256_hex(&hex, body));
    // upper-case spelling of the same digest also passes
    let upper: Vec<u8> = hex.iter().map(|c| c.to_ascii_uppercase()).collect();
    assert!(verify_sha256_hex(&upper, body));
    // a single flipped bit in the body fails
    let mut flipped = body.to_vec();
    flipped[0] ^= 1;
    assert!(!verify_sha256_hex(&hex, &flipped));
}

fn artifact_link(digest_json: Option<&str>, media_type: Option<&str>) -> ArtifactLink {
    ArtifactLink {
        uri: b("https://example.com/sbom.json"),
        digest: digest_json.map(|d| serde_json::from_str(d).unwrap()),
        media_type: media_type.map(b),
        expected_signer_identity: None,
    }
}

#[test]
fn artifact_digest_verified() {
    let body = b"artifact bytes";
    let hex = String::from_utf8(to_hex_lower(&sha256_digest(body))).unwrap();
    let link = artifact_link(Some(&format!("{{\"sha256\":\"{}\"}}", hex)), None);
    assert_eq!(check_artifact_digest(&link, body), ArtifactCheck::Verified);
}

#[test]
fn artifact_digest_mismatch() {
    let body = b"artifact bytes";
    let hex = String::from_utf8(to_hex_lower(&sha256_digest(body))).unwrap();
    let link = artifact_link(Some(&format!("{{\"sha256\":\"{}\"}}", hex)), None);
    let mut flipped = body.to_vec();
    flipped[3] ^= 0x01;
    assert_eq!(check_artifact_digest(&link, &flipped), ArtifactCheck::Mismatch);
}

#[test]
fn artifact_without_digest_warns() {
    let link = artifact_link(None, None);
    assert_eq!(check_artifact_digest(&link, b"x"), ArtifactCheck::NoDigest);
    let other = artifact_link(Some("{\"sha512\":\"aa\"}"), None);
    assert_eq!(check_artifact_digest(&other, b"x"), ArtifactCheck::NoDigest);
}

#[test]
fn artifact_empty_digest_is_malformed() {
    let link = artifact_link(Some("{\"sha256\":\"\"}"), None);
    assert_eq!(check_artifact_digest(&link, b"x"), ArtifactCheck::EmptyDigest);
}

#[test]
fn first_line_skips_blank_lines_and_trims() {
    let body = b"\n   \t\n  {\"a\":1}  \r\nsecond line\n";
    assert_eq!(first_manifest_line(body), Some(b("{\"a\":1}")));
}

#[test]
fn first_line_of_blank_body_is_none() {
    assert_eq!(first_manifest_line(b"  \n \t \r\n"), None);
    assert_eq!(first_manifest_line(b""), None);
}

#[test]
fn discovery_reads_first_complete_record() {
    let records = vec![
        b("other=1"),
        b("uri=\"https://example.com/root.jsonl\" identity=\"supply@example.com\" x=y"),
        b("uri=\"https://example.com/later.jsonl\" identity=\"late@example.com\""),
    ];
    let (uri, id) = parse_discovery_records(&records).unwrap();
    assert_eq!(uri, b("https://example.com/root.jsonl"));
    assert_eq!(id, b("supply@example.com"));
}

#[test]
fn discovery_requires_both_tokens_non_empty() {
    assert_eq!(parse_discovery_records(&vec![b("uri=\"x\"")]), None);
    assert_eq!(parse_discovery_records(&vec![b("uri=\"\" identity=\"a@b\"")]), None);
    assert_eq!(parse_discovery_records(&vec![]), None);
}

#[test]
fn discovery_last_token_wins_and_quotes_optional() {
    let records = vec![b("uri=first identity=one@x uri=second identity=two@x")];
    let (uri, id) = parse_discovery_records(&records).unwrap();
    assert_eq!(uri, b("second"));
    assert_eq!(id, b("two@x"));
}

#[test]
fn chainsights_purl_parses() {
    let (domain, name, ver) =
        parse_chainsights_purl(b"pkg:chainsights/example.com/core@1.2.0").unwrap();
    assert_eq!(domain, b("example.com"));
    assert_eq!(name, b("core"));
    assert_eq!(ver, Some(b("1.2.0")));
}

#[test]
fn chainsights_purl_without_version() {
    let (domain, name, ver) = parse_chainsights_purl(b"pkg:chainsights/example.com/core").unwrap();
    assert_eq!(domain, b("example.com"));
    assert_eq!(name, b("core"));
    assert_eq!(ver, None);
}

#[test]
fn purl_of_wrong_type_is_rejected() {
    let r = parse_chainsights_purl(b"pkg:npm/example.com/core@1.0.0");
    assert_eq!(r.unwrap_err(), PurlError::WrongType);
}

#[test]
fn purl_without_namespace_is_rejected() {
    let r = parse_chainsights_purl(b"pkg:chainsights/core");
    assert_eq!(r.unwrap_err(), PurlError::MissingNamespace);
}

#[test]
fn purl_gibberish_is_rejected() {
    let r = parse_chainsights_purl(b"not a purl at all");
    assert_eq!(r.unwrap_err(), PurlError::Invalid);
}

#[test]
fn statement_and_predicate_parse() {
    let text = "{\"_type\":\"https://in-toto.io/Statement/v1\",\"subject\":[{\"name\":\"m\",\"digest\":{\"sha256\":\"00\"}}],\"predicateType\":\"https://chainsights.rest/catalog/v1\",\"predicate\":{\"timestamp\":\"2024-01-01T00:00:00Z\",\"components\":[{\"name\":\"core\",\"componentPurl\":\"pkg:chainsights/example.com/core\",\"componentAttestationLink\":{\"uri\":\"https://example.com/c1.jsonl\",\"expectedSignerIdentity\":\"supply@example.com\"}}]}}";
    let stmt = parse_statement(text.as_bytes()).unwrap();
    assert_eq!(stmt.predicate_type, b("https://chainsights.rest/catalog/v1"));
    assert_eq!(stmt.subject.len(), 1);
    let pred = parse_predicate(&stmt).unwrap();
    match pred {
        chainsights_client::model::ChainsightsPredicate::Catalog(c) => {
            assert_eq!(c.timestamp, b("2024-01-01T00:00:00Z"));
            assert_eq!(c.components.len(), 1);
            assert_eq!(c.components[0].name, b("core"));
            assert_eq!(
                c.components[0].component_attestation_link.uri,
                b("https://example.com/c1.jsonl")
            );
        },
        other => panic!("expected a catalog, found {:?}", other),
    }
}

#[test]
fn unknown_predicate_type_is_kept_verbatim() {
    let text = "{\"_type\":\"https://in-toto.io/Statement/v1\",\"subject\":[],\"predicateType\":\"https://example.com/other/v1\",\"predicate\":{\"free\":\"form\"}}";
    let stmt = parse_statement(text.as_bytes()).unwrap();
    let pred = parse_predicate(&stmt).unwrap();
    match pred {
        chainsights_client::model::ChainsightsPredicate::Unknown {
            predicate_type,
            predicate_value,
        } => {
            assert_eq!(predicate_type, b("https://example.com/other/v1"));
            assert_eq!(predicate_value.get("free").unwrap().as_str(), Some("form"));
        },
        other => panic!("expected an unknown predicate, found {:?}", other),
    }
}

#[test]
fn recognized_type_with_bad_shape_is_malformed() {
    let text = "{\"_type\":\"https://in-toto.io/Statement/v1\",\"subject\":[],\"predicateType\":\"https://chainsights.rest/catalog/v1\",\"predicate\":{\"timestamp\":7}}";
    let stmt = parse_statement(text.as_bytes()).unwrap();
    let r = parse_predicate(&stmt);
    assert_eq!(
        r.unwrap_err(),
        chainsights_client::errors::VerifyError::MalformedPredicate
    );
}

#[test]
fn statement_missing_fields_is_malformed() {
    let r = parse_statement(b"{\"predicateType\":\"x\"}");
    assert_eq!(
        r.unwrap_err(),
        chainsights_client::errors::VerifyError::MalformedStatement
    );
}
