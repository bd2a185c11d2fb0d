use vstd::prelude::*;
use crate::digest::{sha256_of, spec_digest_matches, spec_hex_lower, verify_sha256_hex};
use crate::jsonval::{as_str_bytes, get_field, spec_obj_field, JsonData};
use crate::model::ArtifactLink;
use crate::views::ArtifactLinkV;

verus! {

/// The outcome of checking a fetched artifact body against its link.
#[derive(Clone, Copy, Debug, PartialEq, Eq, Structural)]
pub enum ArtifactCheck {
    /// A `sha256` digest was declared and the body's SHA-256 equals it
    /// (hexadecimal, ignoring ASCII case).
    Verified,
    /// No `sha256` digest is declared: the body is accepted, and the
    /// caller owes the user one warning for this link.
    NoDigest,
    /// A `sha256` entry is declared but empty: the link is malformed.
    EmptyDigest,
    /// The declared digest differs from the body's SHA-256.
    Mismatch,
}

/// What checking a body against a link's digest yields: the `sha256`
/// entry of the link's digest map decides, as the artifact fetcher
/// defines it.
pub open spec fn spec_artifact_check(link: ArtifactLinkV, body: Seq<u8>) -> ArtifactCheck {
    match link.digest {
        None => ArtifactCheck::NoDigest,
        Some(d) => match spec_obj_field(d, "sha256"@) {
            Some(JsonData::Str(hex)) => if hex.len() == 0 {
                ArtifactCheck::EmptyDigest
            } else if spec_digest_matches(hex, body) {
                ArtifactCheck::Verified
            } else {
                ArtifactCheck::Mismatch
            },
            _ => ArtifactCheck::NoDigest,
        },
    }
}

/// Checks a fetched artifact body against the link it came from:
/// compares the body's SHA-256 with the link's `sha256` digest where
/// one is declared, and reports a warning outcome where none is.
pub fn check_artifact_digest(link: &ArtifactLink, body: &[u8]) -> (r: ArtifactCheck)
    ensures
        r == spec_artifact_check(link.deep_view(), body@),
{
    match &link.digest {
        None => ArtifactCheck::NoDigest,
        Some(d) => match get_field(d, "sha256") {
            None => ArtifactCheck::NoDigest,
            Some(h) => match as_str_bytes(h) {
                None => ArtifactCheck::NoDigest,
                Some(hex) => if hex.len() == 0 {
                    ArtifactCheck::EmptyDigest
                } else if verify_sha256_hex(hex.as_slice(), body) {
                    ArtifactCheck::Verified
                } else {
                    ArtifactCheck::Mismatch
                },
            },
        },
    }
}

/// Artifact digest round trip: a link that declares exactly the
/// lower-case hexadecimal SHA-256 of the body verifies. The digest of
/// any body has 32 bytes, so its hexadecimal spelling is never empty.
pub proof fn lemma_artifact_digest_round_trip(link: ArtifactLinkV, body: Seq<u8>)
    requires
        sha256_of(body).len() == 32,
        link.digest matches Some(d) && spec_obj_field(d, "sha256"@) == Some(
            JsonData::Str(spec_hex_lower(sha256_of(body))),
        ),
    ensures
        spec_artifact_check(link, body) == ArtifactCheck::Verified,
{
    crate::digest::lemma_digest_round_trip(spec_hex_lower(sha256_of(body)), body);
}

} // verus!
