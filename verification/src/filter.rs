use vstd::prelude::*;
use crate::ascii::{bytes_eq, clone_bytes};
use crate::model::{
    clone_artifact_links, clone_opt_bytes, AggregatedCatalogData, AggregatedReleaseData,
    ArtifactLink, ChainsightsReleasePredicate, Generator,
};
use crate::purl::purl_parts_of;
use crate::views::{AggregatedComponentDataV, AggregatedReleaseDataV, ArtifactLinkV};

verus! {

broadcast use crate::views::lemma_bytes_deep_view, crate::views::lemma_opt_bytes_deep_view,
    crate::views::lemma_pair_list_deep_view;

/// A copy of an optional generator.
pub fn clone_opt_generator(g: &Option<Generator>) -> (r: Option<Generator>)
    ensures
        r.deep_view() == g.deep_view(),
{
    match g {
        Some(gen) => Some(Generator { purl: clone_bytes(&gen.purl) }),
        None => None,
    }
}

/// A copy of an optional artifact-link list.
pub fn clone_opt_artifact_links(v: &Option<Vec<ArtifactLink>>) -> (r: Option<Vec<ArtifactLink>>)
    ensures
        r.deep_view() == v.deep_view(),
{
    match v {
        Some(ls) => Some(clone_artifact_links(ls)),
        None => None,
    }
}

/// A copy of a list of (URI, message) pairs.
pub fn clone_pairs(v: &Vec<(Vec<u8>, Vec<u8>)>) -> (r: Vec<(Vec<u8>, Vec<u8>)>)
    ensures
        r.deep_view() == v.deep_view(),
{
    let n = v.len();
    let mut out: Vec<(Vec<u8>, Vec<u8>)> = Vec::new();
    proof {
        assert(out.deep_view() =~= v.deep_view().take(0));
    }
    let mut i: usize = 0;
    while i < n
        invariant
            n == v@.len(),
            i <= n,
            out.deep_view() == v.deep_view().take(i as int),
        decreases n - i,
    {
        let ghost prev = out.deep_view();
        let x = (clone_bytes(&v[i].0), clone_bytes(&v[i].1));
        let ghost xv = x.deep_view();
        out.push(x);
        proof {
            assert(out.deep_view() =~= prev.push(xv));
            assert(v.deep_view().take(i + 1) =~= v.deep_view().take(i as int).push(
                v.deep_view()[i as int],
            ));
        }
        i += 1;
    }
    proof {
        assert(v.deep_view().take(n as int) =~= v.deep_view());
    }
    out
}

impl ChainsightsReleasePredicate {
    /// A copy of the release predicate; it holds the same values.
    pub fn duplicate(&self) -> (r: Self)
        ensures
            r.deep_view() == self.deep_view(),
    {
        ChainsightsReleasePredicate {
            generator: clone_opt_generator(&self.generator),
            timestamp: clone_bytes(&self.timestamp),
            purl: clone_bytes(&self.purl),
            name: clone_bytes(&self.name),
            release_date: clone_opt_bytes(&self.release_date),
            release_notes_uri: clone_opt_bytes(&self.release_notes_uri),
            lifecycle_phase: clone_opt_bytes(&self.lifecycle_phase),
            metadata_links: clone_opt_artifact_links(&self.metadata_links),
            artifacts: clone_opt_artifact_links(&self.artifacts),
        }
    }
}

impl AggregatedReleaseData {
    /// A copy of the aggregated release; it holds the same values.
    pub fn duplicate(&self) -> (r: Self)
        ensures
            r.deep_view() == self.deep_view(),
    {
        AggregatedReleaseData {
            release_predicate: (match &self.release_predicate {
                Some(rp) => Some(rp.duplicate()),
                None => None,
            }),
            metadata_artifacts: clone_artifact_links(&self.metadata_artifacts),
            release_link_uri: clone_bytes(&self.release_link_uri),
            artifact_fetch_errors: clone_pairs(&self.artifact_fetch_errors),
        }
    }
}

/// A copy of a list of aggregated releases.
pub fn clone_releases(v: &Vec<AggregatedReleaseData>) -> (r: Vec<AggregatedReleaseData>)
    ensures
        r.deep_view() == v.deep_view(),
{
    let n = v.len();
    let mut out: Vec<AggregatedReleaseData> = Vec::new();
    proof {
        assert(out.deep_view() =~= v.deep_view().take(0));
    }
    let mut i: usize = 0;
    while i < n
        invariant
            n == v@.len(),
            i <= n,
            out.deep_view() == v.deep_view().take(i as int),
        decreases n - i,
    {
        let ghost prev = out.deep_view();
        let x = v[i].duplicate();
        let ghost xv = x.deep_view();
        out.push(x);
        proof {
            assert(out.deep_view() =~= prev.push(xv));
            assert(v.deep_view().take(i + 1) =~= v.deep_view().take(i as int).push(
                v.deep_view()[i as int],
            ));
        }
        i += 1;
    }
    proof {
        assert(v.deep_view().take(n as int) =~= v.deep_view());
    }
    out
}

/// Whether a component entry carries a predicate with this name.
pub open spec fn spec_component_matches(c: AggregatedComponentDataV, name: Seq<u8>) -> bool {
    c.component_predicate matches Some(p) && p.name == name
}

/// The first component whose predicate carries this name.
pub open spec fn spec_first_match(cs: Seq<AggregatedComponentDataV>, name: Seq<u8>) -> Option<int>
    decreases cs.len(),
{
    if cs.len() == 0 {
        None
    } else if spec_component_matches(cs.first(), name) {
        Some(0)
    } else {
        match spec_first_match(cs.drop_first(), name) {
            Some(i) => Some(i + 1),
            None => None,
        }
    }
}

/// The releases of a component whose own `purl` names exactly this
/// version, in order; every other release — one without a predicate,
/// one whose `purl` does not parse or names no version, one of another
/// version — is excluded.
pub open spec fn spec_select_releases(rs: Seq<AggregatedReleaseDataV>, ver: Seq<u8>) -> Seq<
    AggregatedReleaseDataV,
>
    decreases rs.len(),
{
    if rs.len() == 0 {
        Seq::empty()
    } else {
        let rest = spec_select_releases(rs.drop_first(), ver);
        match rs.first().release_predicate {
            None => rest,
            Some(rp) => match purl_parts_of(rp.purl) {
                Some((_, _, _, Some(v))) => if v == ver {
                    seq![rs.first()] + rest
                } else {
                    rest
                },
                _ => rest,
            },
        }
    }
}

/// What the filter selects for a component name: the matched
/// component's index and releases, every release under `allReleases`,
/// those of the named version where one is given, and none with a
/// warning owed where neither is given.
#[derive(Debug)]
pub struct FilterOutput {
    /// The index, among the aggregated components, of the first one
    /// whose predicate carries the requested name.
    pub component_index: Option<usize>,
    /// The selected releases, in their aggregated order.
    pub releases: Vec<AggregatedReleaseData>,
    /// Whether the caller owes the user a warning: the PURL named no
    /// version and `allReleases` was not asked for, so no release was
    /// selected.
    pub warned_no_version: bool,
}

/// Looks up the PURL's component among the aggregated components and
/// selects its releases: all of them under `all_releases`, those whose
/// own `purl` names `version` where one is given, and none otherwise
/// (with the warning flag set).
pub fn filter_releases(
    agg: &AggregatedCatalogData,
    component_name: &[u8],
    version: Option<&Vec<u8>>,
    all_releases: bool,
) -> (r: FilterOutput)
    ensures
        match spec_first_match(agg.components.deep_view(), component_name@) {
            None => r.component_index is None && r.releases@.len() == 0 && !r.warned_no_version,
            Some(ci) => {
                let comp = agg.components.deep_view()[ci];
                if all_releases {
                    r.component_index == Some(ci as usize) && r.releases.deep_view()
                        == comp.releases && !r.warned_no_version
                } else {
                    match version {
                        Some(v) => r.component_index == Some(ci as usize) && r.releases.deep_view()
                            == spec_select_releases(comp.releases, v@) && !r.warned_no_version,
                        None => r.component_index == Some(ci as usize) && r.releases@.len() == 0
                            && r.warned_no_version,
                    }
                }
            },
        },
{
    let ghost cs = agg.components.deep_view();
    let n = agg.components.len();
    let mut ci: usize = 0;
    while ci < n
        invariant
            n == agg.components@.len(),
            cs == agg.components.deep_view(),
            ci <= n,
            forall|j: int| 0 <= j < ci ==> !spec_component_matches(cs[j], component_name@),
        decreases n - ci,
    {
        let matched = match &agg.components[ci].component_predicate {
            Some(p) => bytes_eq(p.name.as_slice(), component_name),
            None => false,
        };
        if matched {
            let comp_idx = ci;
            proof {
                assert(cs[comp_idx as int] == agg.components@[comp_idx as int].deep_view());
                lemma_first_match_here(cs, component_name@, comp_idx as int);
            }
            let comp = &agg.components[comp_idx];
            proof {
                assert(comp.releases.deep_view() == cs[comp_idx as int].releases);
            }
            if all_releases {
                return FilterOutput {
                    component_index: Some(comp_idx),
                    releases: clone_releases(&comp.releases),
                    warned_no_version: false,
                };
            }
            let ver = match version {
                Some(v) => v,
                None => {
                    return FilterOutput {
                        component_index: Some(comp_idx),
                        releases: Vec::new(),
                        warned_no_version: true,
                    };
                },
            };
            let ghost rs = comp.releases.deep_view();
            let m = comp.releases.len();
            let mut out: Vec<AggregatedReleaseData> = Vec::new();
            proof {
                assert(rs.skip(0) =~= rs);
                assert(out.deep_view() =~= Seq::<AggregatedReleaseDataV>::empty());
            }
            let mut i: usize = 0;
            while i < m
                invariant
                    m == comp.releases@.len(),
                    rs == comp.releases.deep_view(),
                    comp_idx < agg.components@.len(),
                    comp == &agg.components[comp_idx as int],
                    spec_first_match(agg.components.deep_view(), component_name@) == Some(
                        comp_idx as int,
                    ),
                    agg.components.deep_view()[comp_idx as int].releases == rs,
                    version == Some(ver),
                    !all_releases,
                    i <= m,
                    spec_select_releases(rs, ver@) == out.deep_view() + spec_select_releases(
                        rs.skip(i as int),
                        ver@,
                    ),
                decreases m - i,
            {
                proof {
                    assert(rs.skip(i as int).drop_first() =~= rs.skip(i + 1));
                    assert(rs.skip(i as int).first() == rs[i as int]);
                }
                match &comp.releases[i].release_predicate {
                    None => {},
                    Some(rp) => {
                        proof {
                            assert(rs[i as int] == comp.releases@[i as int].deep_view());
                            assert(rs[i as int].release_predicate == Some(rp.deep_view()));
                            assert(rp.deep_view().purl == rp.purl@);
                        }
                        match crate::purl::parse_purl(rp.purl.as_slice()) {
                            None => {},
                            Some(parts) => match parts.version {
                                None => {},
                                Some(v) => {
                                    if bytes_eq(v.as_slice(), ver.as_slice()) {
                                        let ghost prev = out.deep_view();
                                        let x = comp.releases[i].duplicate();
                                        let ghost xv = x.deep_view();
                                        out.push(x);
                                        proof {
                                            assert(out.deep_view() =~= prev.push(xv));
                                            assert(prev + (seq![rs[i as int]]
                                                + spec_select_releases(rs.skip(i + 1), ver@))
                                                =~= out.deep_view() + spec_select_releases(
                                                rs.skip(i + 1),
                                                ver@,
                                            ));
                                        }
                                    }
                                },
                            },
                        }
                    },
                }
                i += 1;
            }
            proof {
                assert(rs.skip(m as int) =~= Seq::<AggregatedReleaseDataV>::empty());
                assert(out.deep_view() + Seq::<AggregatedReleaseDataV>::empty() =~= out.deep_view());
            }
            return FilterOutput {
                component_index: Some(comp_idx),
                releases: out,
                warned_no_version: false,
            };
        }
        proof {
            assert(!spec_component_matches(cs[ci as int], component_name@));
        }
        ci += 1;
    }
    proof {
        lemma_first_match_none(cs, component_name@);
    }
    FilterOutput { component_index: None, releases: Vec::new(), warned_no_version: false }
}

/// Where no earlier component matches and the one at `i` does, `i` is
/// the first match.
proof fn lemma_first_match_here(cs: Seq<AggregatedComponentDataV>, name: Seq<u8>, i: int)
    requires
        0 <= i < cs.len(),
        forall|j: int| 0 <= j < i ==> !spec_component_matches(cs[j], name),
        spec_component_matches(cs[i], name),
    ensures
        spec_first_match(cs, name) == Some(i),
    decreases i,
{
    if i == 0 {
    } else {
        assert(!spec_component_matches(cs.first(), name));
        assert forall|j: int| 0 <= j < i - 1 implies !spec_component_matches(
            cs.drop_first()[j],
            name,
        ) by {
            assert(cs.drop_first()[j] == cs[j + 1]);
        }
        assert(cs.drop_first()[i - 1] == cs[i]);
        lemma_first_match_here(cs.drop_first(), name, i - 1);
    }
}

/// Where no component matches, there is no first match.
proof fn lemma_first_match_none(cs: Seq<AggregatedComponentDataV>, name: Seq<u8>)
    requires
        forall|j: int| 0 <= j < cs.len() ==> !spec_component_matches(cs[j], name),
    ensures
        spec_first_match(cs, name) is None,
    decreases cs.len(),
{
    if cs.len() > 0 {
        assert forall|j: int| 0 <= j < cs.drop_first().len() implies !spec_component_matches(
            cs.drop_first()[j],
            name,
        ) by {
            assert(cs.drop_first()[j] == cs[j + 1]);
        }
        lemma_first_match_none(cs.drop_first(), name);
    }
}

/// The artifact links, over the given releases' metadata artifacts in
/// order, whose media type equals the filter.
pub open spec fn spec_links_with(ls: Seq<ArtifactLinkV>, mt: Seq<u8>) -> Seq<ArtifactLinkV>
    decreases ls.len(),
{
    if ls.len() == 0 {
        Seq::empty()
    } else {
        (if ls.first().media_type == Some(mt) {
            seq![ls.first()]
        } else {
            Seq::empty()
        }) + spec_links_with(ls.drop_first(), mt)
    }
}

/// The metadata artifacts of the given releases, in order, whose media
/// type equals the filter.
pub open spec fn spec_selected_artifacts(rs: Seq<AggregatedReleaseDataV>, mt: Seq<u8>) -> Seq<
    ArtifactLinkV,
>
    decreases rs.len(),
{
    if rs.len() == 0 {
        Seq::empty()
    } else {
        spec_links_with(rs.first().metadata_artifacts, mt) + spec_selected_artifacts(
            rs.drop_first(),
            mt,
        )
    }
}

/// Collects, over the releases' metadata artifacts in order, the links
/// whose media type equals the filter; these are the artifacts the
/// driver fetches.
pub fn select_artifacts(rs: &Vec<AggregatedReleaseData>, media_type: &[u8]) -> (r: Vec<
    ArtifactLink,
>)
    ensures
        r.deep_view() == spec_selected_artifacts(rs.deep_view(), media_type@),
{
    let ghost rv = rs.deep_view();
    let n = rs.len();
    let mut out: Vec<ArtifactLink> = Vec::new();
    proof {
        assert(rv.skip(0) =~= rv);
        assert(out.deep_view() =~= Seq::<ArtifactLinkV>::empty());
        assert(out.deep_view() + spec_selected_artifacts(rv.skip(0), media_type@)
            =~= spec_selected_artifacts(rv, media_type@));
    }
    let mut i: usize = 0;
    while i < n
        invariant
            n == rs@.len(),
            rv == rs.deep_view(),
            i <= n,
            out.deep_view() + spec_selected_artifacts(rv.skip(i as int), media_type@)
                == spec_selected_artifacts(rv, media_type@),
        decreases n - i,
    {
        proof {
            assert(rv.skip(i as int).drop_first() =~= rv.skip(i + 1));
            assert(rv.skip(i as int).first() == rv[i as int]);
        }
        let links = &rs[i].metadata_artifacts;
        let ghost lv = links.deep_view();
        let m = links.len();
        let mut j: usize = 0;
        proof {
            assert(lv.skip(0) =~= lv);
        }
        while j < m
            invariant
                m == links@.len(),
                lv == links.deep_view(),
                j <= m,
                out.deep_view() + spec_links_with(lv.skip(j as int), media_type@)
                    + spec_selected_artifacts(rv.skip(i + 1), media_type@)
                    == spec_selected_artifacts(rv, media_type@),
            decreases m - j,
        {
            proof {
                assert(lv.skip(j as int).drop_first() =~= lv.skip(j + 1));
                assert(lv.skip(j as int).first() == lv[j as int]);
            }
            let take_it = match &links[j].media_type {
                Some(mt) => bytes_eq(mt.as_slice(), media_type),
                None => false,
            };
            if take_it {
                let ghost prev = out.deep_view();
                let x = links[j].duplicate();
                let ghost xv = x.deep_view();
                out.push(x);
                proof {
                    assert(out.deep_view() =~= prev.push(xv));
                    assert(prev.push(xv) + spec_links_with(lv.skip(j + 1), media_type@)
                        =~= prev + (seq![lv[j as int]] + spec_links_with(
                        lv.skip(j + 1),
                        media_type@,
                    )));
                }
            } else {
                proof {
                    assert(out.deep_view() + spec_links_with(lv.skip(j + 1), media_type@) =~= (
                    out.deep_view() + (Seq::<ArtifactLinkV>::empty() + spec_links_with(
                        lv.skip(j + 1),
                        media_type@,
                    ))));
                }
            }
            j += 1;
        }
        proof {
            assert(lv.skip(m as int) =~= Seq::<ArtifactLinkV>::empty());
            assert(out.deep_view() + spec_selected_artifacts(rv.skip(i + 1), media_type@) =~= (
            out.deep_view() + (Seq::<ArtifactLinkV>::empty() + spec_selected_artifacts(
                rv.skip(i + 1),
                media_type@,
            ))));
        }
        i += 1;
    }
    proof {
        assert(rv.skip(n as int) =~= Seq::<AggregatedReleaseDataV>::empty());
        assert(out.deep_view() =~= out.deep_view() + Seq::<ArtifactLinkV>::empty());
    }
    out
}

} // verus!
