use vstd::prelude::*;
use crate::jsonval::{json_rep, JsonData};
use crate::model::{
    AggregatedCatalogData, AggregatedComponentData, AggregatedReleaseData, ArtifactLink,
    AttestationLink, CatalogComponentEntry, ChainsightsCatalogPredicate,
    ChainsightsComponentPredicate, ChainsightsPredicate, ChainsightsReleasePredicate, Generator,
    InTotoStatement, RepositoryInfo, SubCatalogLink, SubComponentLink, Subject,
};

verus! {

/// The mathematical value of a `AttestationLink`.
pub struct AttestationLinkV {
    pub uri: Seq<u8>,
    pub digest: Option<JsonData>,
    pub media_type: Option<Seq<u8>>,
    pub expected_signer_identity: Seq<u8>,
}

impl DeepView for AttestationLink {
    type V = AttestationLinkV;

    open spec fn deep_view(&self) -> AttestationLinkV {
        AttestationLinkV {
            uri: self.uri.deep_view(),
            digest: match self.digest {
                Some(d) => Some(json_rep(d)),
                None => None,
            },
            media_type: self.media_type.deep_view(),
            expected_signer_identity: self.expected_signer_identity.deep_view(),
        }
    }
}

/// The mathematical value of a `ArtifactLink`.
pub struct ArtifactLinkV {
    pub uri: Seq<u8>,
    pub digest: Option<JsonData>,
    pub media_type: Option<Seq<u8>>,
    pub expected_signer_identity: Option<Seq<u8>>,
}

impl DeepView for ArtifactLink {
    type V = ArtifactLinkV;

    open spec fn deep_view(&self) -> ArtifactLinkV {
        ArtifactLinkV {
            uri: self.uri.deep_view(),
            digest: match self.digest {
                Some(d) => Some(json_rep(d)),
                None => None,
            },
            media_type: self.media_type.deep_view(),
            expected_signer_identity: self.expected_signer_identity.deep_view(),
        }
    }
}

/// The mathematical value of a `Generator`.
pub struct GeneratorV {
    pub purl: Seq<u8>,
}

impl DeepView for Generator {
    type V = GeneratorV;

    open spec fn deep_view(&self) -> GeneratorV {
        GeneratorV {
            purl: self.purl.deep_view(),
        }
    }
}

/// The mathematical value of a `CatalogComponentEntry`.
pub struct CatalogComponentEntryV {
    pub name: Seq<u8>,
    pub description: Option<Seq<u8>>,
    pub component_purl: Seq<u8>,
    pub component_attestation_link: AttestationLinkV,
    pub labels: Option<JsonData>,
}

impl DeepView for CatalogComponentEntry {
    type V = CatalogComponentEntryV;

    open spec fn deep_view(&self) -> CatalogComponentEntryV {
        CatalogComponentEntryV {
            name: self.name.deep_view(),
            description: self.description.deep_view(),
            component_purl: self.component_purl.deep_view(),
            component_attestation_link: self.component_attestation_link.deep_view(),
            labels: match self.labels {
                Some(d) => Some(json_rep(d)),
                None => None,
            },
        }
    }
}

/// The mathematical value of a `SubCatalogLink`.
pub struct SubCatalogLinkV {
    pub name: Seq<u8>,
    pub catalog_attestation_link: AttestationLinkV,
}

impl DeepView for SubCatalogLink {
    type V = SubCatalogLinkV;

    open spec fn deep_view(&self) -> SubCatalogLinkV {
        SubCatalogLinkV {
            name: self.name.deep_view(),
            catalog_attestation_link: self.catalog_attestation_link.deep_view(),
        }
    }
}

/// The mathematical value of a `ChainsightsCatalogPredicate`.
pub struct ChainsightsCatalogPredicateV {
    pub generator: Option<GeneratorV>,
    pub timestamp: Seq<u8>,
    pub components: Seq<CatalogComponentEntryV>,
    pub sub_catalogs: Option<Seq<SubCatalogLinkV>>,
    pub metadata_links: Option<Seq<ArtifactLinkV>>,
}

impl DeepView for ChainsightsCatalogPredicate {
    type V = ChainsightsCatalogPredicateV;

    open spec fn deep_view(&self) -> ChainsightsCatalogPredicateV {
        ChainsightsCatalogPredicateV {
            generator: self.generator.deep_view(),
            timestamp: self.timestamp.deep_view(),
            components: self.components.deep_view(),
            sub_catalogs: self.sub_catalogs.deep_view(),
            metadata_links: self.metadata_links.deep_view(),
        }
    }
}

/// The mathematical value of a `RepositoryInfo`.
pub struct RepositoryInfoV {
    pub repo_type: Seq<u8>,
    pub uri: Seq<u8>,
    pub paths: Option<Seq<Seq<u8>>>,
    pub primary_path: Option<Seq<u8>>,
}

impl DeepView for RepositoryInfo {
    type V = RepositoryInfoV;

    open spec fn deep_view(&self) -> RepositoryInfoV {
        RepositoryInfoV {
            repo_type: self.repo_type.deep_view(),
            uri: self.uri.deep_view(),
            paths: self.paths.deep_view(),
            primary_path: self.primary_path.deep_view(),
        }
    }
}

/// The mathematical value of a `SubComponentLink`.
pub struct SubComponentLinkV {
    pub name: Seq<u8>,
    pub sub_component_purl: Seq<u8>,
    pub component_attestation_link: AttestationLinkV,
}

impl DeepView for SubComponentLink {
    type V = SubComponentLinkV;

    open spec fn deep_view(&self) -> SubComponentLinkV {
        SubComponentLinkV {
            name: self.name.deep_view(),
            sub_component_purl: self.sub_component_purl.deep_view(),
            component_attestation_link: self.component_attestation_link.deep_view(),
        }
    }
}

/// The mathematical value of a `ChainsightsComponentPredicate`.
pub struct ChainsightsComponentPredicateV {
    pub generator: Option<GeneratorV>,
    pub timestamp: Seq<u8>,
    pub purl: Seq<u8>,
    pub name: Seq<u8>,
    pub description: Option<Seq<u8>>,
    pub aliases: Option<Seq<Seq<u8>>>,
    pub labels: Option<JsonData>,
    pub repositories: Seq<RepositoryInfoV>,
    pub sub_components: Option<Seq<SubComponentLinkV>>,
    pub release_attestations: Seq<AttestationLinkV>,
    pub metadata_links: Option<Seq<ArtifactLinkV>>,
}

impl DeepView for ChainsightsComponentPredicate {
    type V = ChainsightsComponentPredicateV;

    open spec fn deep_view(&self) -> ChainsightsComponentPredicateV {
        ChainsightsComponentPredicateV {
            generator: self.generator.deep_view(),
            timestamp: self.timestamp.deep_view(),
            purl: self.purl.deep_view(),
            name: self.name.deep_view(),
            description: self.description.deep_view(),
            aliases: self.aliases.deep_view(),
            labels: match self.labels {
                Some(d) => Some(json_rep(d)),
                None => None,
            },
            repositories: self.repositories.deep_view(),
            sub_components: self.sub_components.deep_view(),
            release_attestations: self.release_attestations.deep_view(),
            metadata_links: self.metadata_links.deep_view(),
        }
    }
}

/// The mathematical value of a `ChainsightsReleasePredicate`.
pub struct ChainsightsReleasePredicateV {
    pub generator: Option<GeneratorV>,
    pub timestamp: Seq<u8>,
    pub purl: Seq<u8>,
    pub name: Seq<u8>,
    pub release_date: Option<Seq<u8>>,
    pub release_notes_uri: Option<Seq<u8>>,
    pub lifecycle_phase: Option<Seq<u8>>,
    pub metadata_links: Option<Seq<ArtifactLinkV>>,
    pub artifacts: Option<Seq<ArtifactLinkV>>,
}

impl DeepView for ChainsightsReleasePredicate {
    type V = ChainsightsReleasePredicateV;

    open spec fn deep_view(&self) -> ChainsightsReleasePredicateV {
        ChainsightsReleasePredicateV {
            generator: self.generator.deep_view(),
            timestamp: self.timestamp.deep_view(),
            purl: self.purl.deep_view(),
            name: self.name.deep_view(),
            release_date: self.release_date.deep_view(),
            release_notes_uri: self.release_notes_uri.deep_view(),
            lifecycle_phase: self.lifecycle_phase.deep_view(),
            metadata_links: self.metadata_links.deep_view(),
            artifacts: self.artifacts.deep_view(),
        }
    }
}

/// The mathematical value of a `Subject`.
pub struct SubjectV {
    pub name: Option<Seq<u8>>,
    pub uri: Option<Seq<u8>>,
    pub digest: JsonData,
}

impl DeepView for Subject {
    type V = SubjectV;

    open spec fn deep_view(&self) -> SubjectV {
        SubjectV {
            name: self.name.deep_view(),
            uri: self.uri.deep_view(),
            digest: json_rep(self.digest),
        }
    }
}

/// The mathematical value of a `InTotoStatement`.
pub struct InTotoStatementV {
    pub statement_type: Seq<u8>,
    pub subject: Seq<SubjectV>,
    pub predicate_type: Seq<u8>,
    pub predicate: JsonData,
}

impl DeepView for InTotoStatement {
    type V = InTotoStatementV;

    open spec fn deep_view(&self) -> InTotoStatementV {
        InTotoStatementV {
            statement_type: self.statement_type.deep_view(),
            subject: self.subject.deep_view(),
            predicate_type: self.predicate_type.deep_view(),
            predicate: json_rep(self.predicate),
        }
    }
}

/// The mathematical value of a `AggregatedReleaseData`.
pub struct AggregatedReleaseDataV {
    pub release_predicate: Option<ChainsightsReleasePredicateV>,
    pub metadata_artifacts: Seq<ArtifactLinkV>,
    pub release_link_uri: Seq<u8>,
    pub artifact_fetch_errors: Seq<(Seq<u8>, Seq<u8>)>,
}

impl DeepView for AggregatedReleaseData {
    type V = AggregatedReleaseDataV;

    open spec fn deep_view(&self) -> AggregatedReleaseDataV {
        AggregatedReleaseDataV {
            release_predicate: self.release_predicate.deep_view(),
            metadata_artifacts: self.metadata_artifacts.deep_view(),
            release_link_uri: self.release_link_uri.deep_view(),
            artifact_fetch_errors: self.artifact_fetch_errors.deep_view(),
        }
    }
}

/// The mathematical value of a `AggregatedComponentData`.
pub struct AggregatedComponentDataV {
    pub component_predicate: Option<ChainsightsComponentPredicateV>,
    pub releases: Seq<AggregatedReleaseDataV>,
    pub component_link_uri: Seq<u8>,
    pub release_errors: Seq<(Seq<u8>, Seq<u8>)>,
}

impl DeepView for AggregatedComponentData {
    type V = AggregatedComponentDataV;

    open spec fn deep_view(&self) -> AggregatedComponentDataV {
        AggregatedComponentDataV {
            component_predicate: self.component_predicate.deep_view(),
            releases: self.releases.deep_view(),
            component_link_uri: self.component_link_uri.deep_view(),
            release_errors: self.release_errors.deep_view(),
        }
    }
}

/// The mathematical value of a `AggregatedCatalogData`.
pub struct AggregatedCatalogDataV {
    pub catalog_predicate: Option<ChainsightsCatalogPredicateV>,
    pub components: Seq<AggregatedComponentDataV>,
    pub root_error: Option<Seq<u8>>,
    pub component_errors: Seq<(Seq<u8>, Seq<u8>)>,
}

impl DeepView for AggregatedCatalogData {
    type V = AggregatedCatalogDataV;

    open spec fn deep_view(&self) -> AggregatedCatalogDataV {
        AggregatedCatalogDataV {
            catalog_predicate: self.catalog_predicate.deep_view(),
            components: self.components.deep_view(),
            root_error: self.root_error.deep_view(),
            component_errors: self.component_errors.deep_view(),
        }
    }
}

/// The mathematical value of a `ChainsightsPredicate`.
pub enum ChainsightsPredicateV {
    Catalog(ChainsightsCatalogPredicateV),
    Component(ChainsightsComponentPredicateV),
    Release(ChainsightsReleasePredicateV),
    Unknown { predicate_type: Seq<u8>, predicate_value: JsonData },
}

impl DeepView for ChainsightsPredicate {
    type V = ChainsightsPredicateV;

    open spec fn deep_view(&self) -> ChainsightsPredicateV {
        match self {
            ChainsightsPredicate::Catalog(c) => ChainsightsPredicateV::Catalog(c.deep_view()),
            ChainsightsPredicate::Component(c) => ChainsightsPredicateV::Component(c.deep_view()),
            ChainsightsPredicate::Release(c) => ChainsightsPredicateV::Release(c.deep_view()),
            ChainsightsPredicate::Unknown { predicate_type, predicate_value } =>
                ChainsightsPredicateV::Unknown {
                    predicate_type: predicate_type.deep_view(),
                    predicate_value: json_rep(*predicate_value),
                },
        }
    }
}

/// `deep_view` of a byte vector is its view.
pub broadcast proof fn lemma_bytes_deep_view(v: Vec<u8>)
    ensures
        #[trigger] v.deep_view() == v@,
{
    assert(v.deep_view() =~= v@);
}

/// `deep_view` of an optional byte vector, unfolded.
pub broadcast proof fn lemma_opt_bytes_deep_view(o: Option<Vec<u8>>)
    ensures
        #[trigger] o.deep_view() == (match o {
            Some(b) => Some(b@),
            None => None::<Seq<u8>>,
        }),
{
    match o {
        Some(b) => lemma_bytes_deep_view(b),
        None => {},
    }
}

/// `deep_view` of a list of byte vectors, unfolded.
pub broadcast proof fn lemma_bytes_list_deep_view(v: Vec<Vec<u8>>)
    ensures
        #[trigger] v.deep_view() == v@.map_values(|b: Vec<u8>| b@),
{
    let mapped = v@.map_values(|b: Vec<u8>| b@);
    assert forall|i: int| 0 <= i < v@.len() implies v.deep_view()[i] == mapped[i] by {
        assert(v@[i].deep_view() =~= v@[i]@);
    }
    assert(v.deep_view() =~= mapped);
}

/// `deep_view` of a list of byte-vector pairs, unfolded.
pub broadcast proof fn lemma_pair_list_deep_view(v: Vec<(Vec<u8>, Vec<u8>)>)
    ensures
        #[trigger] v.deep_view() == v@.map_values(|p: (Vec<u8>, Vec<u8>)| (p.0@, p.1@)),
{
    let mapped = v@.map_values(|p: (Vec<u8>, Vec<u8>)| (p.0@, p.1@));
    assert forall|i: int| 0 <= i < v@.len() implies v.deep_view()[i] == mapped[i] by {
        assert(v@[i].0.deep_view() =~= v@[i].0@);
        assert(v@[i].1.deep_view() =~= v@[i].1@);
    }
    assert(v.deep_view() =~= mapped);
}

} // verus!
