use vstd::prelude::*;
use crate::ascii::clone_bytes;
use crate::jsonval::clone_value;
use crate::views::lemma_bytes_deep_view;

verus! {

/// A link to a signed attestation manifest. Text is carried as UTF-8
/// bytes; `digest` holds the link's digest map (algorithm name to hex
/// digest) as the JSON object it arrived as, already checked to map
/// strings to strings.
#[derive(Debug)]
pub struct AttestationLink {
    pub uri: Vec<u8>,
    pub digest: Option<serde_json::Value>,
    pub media_type: Option<Vec<u8>>,
    pub expected_signer_identity: Vec<u8>,
}

/// A link to an artifact whose integrity is checked by digest; the
/// signer identity is optional here.
#[derive(Debug)]
pub struct ArtifactLink {
    pub uri: Vec<u8>,
    pub digest: Option<serde_json::Value>,
    pub media_type: Option<Vec<u8>>,
    pub expected_signer_identity: Option<Vec<u8>>,
}

/// The generator of a predicate.
#[derive(Debug)]
pub struct Generator {
    pub purl: Vec<u8>,
}

/// One component entry of a catalog.
#[derive(Debug)]
pub struct CatalogComponentEntry {
    pub name: Vec<u8>,
    pub description: Option<Vec<u8>>,
    pub component_purl: Vec<u8>,
    pub component_attestation_link: AttestationLink,
    pub labels: Option<serde_json::Value>,
}

/// A link to a sub-catalog.
#[derive(Debug)]
pub struct SubCatalogLink {
    pub name: Vec<u8>,
    pub catalog_attestation_link: AttestationLink,
}

/// The catalog predicate: the components a catalog lists.
#[derive(Debug)]
pub struct ChainsightsCatalogPredicate {
    pub generator: Option<Generator>,
    pub timestamp: Vec<u8>,
    pub components: Vec<CatalogComponentEntry>,
    pub sub_catalogs: Option<Vec<SubCatalogLink>>,
    pub metadata_links: Option<Vec<ArtifactLink>>,
}

/// A repository contributing to a component.
#[derive(Debug)]
pub struct RepositoryInfo {
    pub repo_type: Vec<u8>,
    pub uri: Vec<u8>,
    pub paths: Option<Vec<Vec<u8>>>,
    pub primary_path: Option<Vec<u8>>,
}

/// A link to a sub-component.
#[derive(Debug)]
pub struct SubComponentLink {
    pub name: Vec<u8>,
    pub sub_component_purl: Vec<u8>,
    pub component_attestation_link: AttestationLink,
}

/// The component predicate: a component's identity, repositories and
/// release attestation links.
#[derive(Debug)]
pub struct ChainsightsComponentPredicate {
    pub generator: Option<Generator>,
    pub timestamp: Vec<u8>,
    pub purl: Vec<u8>,
    pub name: Vec<u8>,
    pub description: Option<Vec<u8>>,
    pub aliases: Option<Vec<Vec<u8>>>,
    pub labels: Option<serde_json::Value>,
    pub repositories: Vec<RepositoryInfo>,
    pub sub_components: Option<Vec<SubComponentLink>>,
    pub release_attestations: Vec<AttestationLink>,
    pub metadata_links: Option<Vec<ArtifactLink>>,
}

/// The release predicate: one release of a component and its linked
/// supply-chain artifacts.
#[derive(Debug)]
pub struct ChainsightsReleasePredicate {
    pub generator: Option<Generator>,
    pub timestamp: Vec<u8>,
    pub purl: Vec<u8>,
    pub name: Vec<u8>,
    pub release_date: Option<Vec<u8>>,
    pub release_notes_uri: Option<Vec<u8>>,
    pub lifecycle_phase: Option<Vec<u8>>,
    pub metadata_links: Option<Vec<ArtifactLink>>,
    pub artifacts: Option<Vec<ArtifactLink>>,
}

/// A parsed predicate, tagged by its declared predicate type. An
/// unrecognized type is carried verbatim and is not an error.
#[derive(Debug)]
pub enum ChainsightsPredicate {
    Catalog(ChainsightsCatalogPredicate),
    Component(ChainsightsComponentPredicate),
    Release(ChainsightsReleasePredicate),
    Unknown { predicate_type: Vec<u8>, predicate_value: serde_json::Value },
}

/// One subject of an in-toto statement.
#[derive(Debug)]
pub struct Subject {
    pub name: Option<Vec<u8>>,
    pub uri: Option<Vec<u8>>,
    pub digest: serde_json::Value,
}

/// An in-toto statement: its type, subjects, declared predicate type,
/// and the raw predicate value.
#[derive(Debug)]
pub struct InTotoStatement {
    pub statement_type: Vec<u8>,
    pub subject: Vec<Subject>,
    pub predicate_type: Vec<u8>,
    pub predicate: serde_json::Value,
}

/// The OpenSSF Baseline predicate: the outcome of a baseline
/// verification run.
#[derive(Debug)]
pub struct BaselinePredicate {
    pub verified_timestamp: Vec<u8>,
    pub verifier: BaselineVerifier,
    pub assessment_comment: Vec<u8>,
    pub controls: Vec<BaselineControl>,
}

/// The verifier that produced a baseline assessment.
#[derive(Debug)]
pub struct BaselineVerifier {
    pub id: Vec<u8>,
    pub comment: Option<Vec<u8>>,
}

/// One baseline control and its implementation status.
#[derive(Debug)]
pub struct BaselineControl {
    pub control: Vec<u8>,
    pub implemented: bool,
    pub evidence: Option<Vec<BaselineEvidence>>,
}

/// Evidence attached to a baseline control.
#[derive(Debug)]
pub struct BaselineEvidence {
    pub description: Option<Vec<u8>>,
    pub uri: Option<Vec<u8>>,
    pub media_type: Option<Vec<u8>>,
}

/// One release aggregated under a component.
#[derive(Debug)]
pub struct AggregatedReleaseData {
    pub release_predicate: Option<ChainsightsReleasePredicate>,
    pub metadata_artifacts: Vec<ArtifactLink>,
    pub release_link_uri: Vec<u8>,
    pub artifact_fetch_errors: Vec<(Vec<u8>, Vec<u8>)>,
}

/// One component aggregated under a catalog.
#[derive(Debug)]
pub struct AggregatedComponentData {
    pub component_predicate: Option<ChainsightsComponentPredicate>,
    pub releases: Vec<AggregatedReleaseData>,
    pub component_link_uri: Vec<u8>,
    pub release_errors: Vec<(Vec<u8>, Vec<u8>)>,
}

/// The whole aggregation result: the root catalog, its components, and
/// the structured errors collected along the walk.
#[derive(Debug)]
pub struct AggregatedCatalogData {
    pub catalog_predicate: Option<ChainsightsCatalogPredicate>,
    pub components: Vec<AggregatedComponentData>,
    pub root_error: Option<Vec<u8>>,
    pub component_errors: Vec<(Vec<u8>, Vec<u8>)>,
}

/// A copy of an optional byte string.
pub fn clone_opt_bytes(v: &Option<Vec<u8>>) -> (r: Option<Vec<u8>>)
    ensures
        r.deep_view() == v.deep_view(),
{
    proof {
        broadcast use crate::views::lemma_opt_bytes_deep_view;

    }
    match v {
        Some(b) => Some(clone_bytes(b)),
        None => None,
    }
}

impl ArtifactLink {
    /// A copy of the link; it holds the same values.
    pub fn duplicate(&self) -> (r: Self)
        ensures
            r.deep_view() == self.deep_view(),
    {
        proof {
            broadcast use lemma_bytes_deep_view;

        }
        ArtifactLink {
            uri: clone_bytes(&self.uri),
            digest: (match &self.digest {
                Some(d) => Some(clone_value(d)),
                None => None,
            }),
            media_type: clone_opt_bytes(&self.media_type),
            expected_signer_identity: clone_opt_bytes(&self.expected_signer_identity),
        }
    }
}

/// A copy of a list of artifact links; it holds the same values.
pub fn clone_artifact_links(v: &Vec<ArtifactLink>) -> (r: Vec<ArtifactLink>)
    ensures
        r.deep_view() == v.deep_view(),
{
    let n = v.len();
    let mut out: Vec<ArtifactLink> = Vec::new();
    proof {
        assert(out.deep_view() =~= v.deep_view().take(0));
    }
    let mut i: usize = 0;
    while i < n
        invariant
            n == v@.len(),
            i <= n,
            out.deep_view() == v.deep_view().take(i as int),
        decreases n - i,
    {
        let ghost prev = out.deep_view();
        let x = v[i].duplicate();
        let ghost xv = x.deep_view();
        out.push(x);
        proof {
            assert(out.deep_view() =~= prev.push(xv));
            assert(v.deep_view().take(i + 1) =~= v.deep_view().take(i as int).push(
                v.deep_view()[i as int],
            ));
        }
        i += 1;
    }
    proof {
        assert(v.deep_view().take(n as int) =~= v.deep_view());
    }
    out
}

} // verus!
