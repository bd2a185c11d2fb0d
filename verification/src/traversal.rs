use vstd::prelude::*;
use vstd::pervasive::unreached;
use crate::ascii::{bytes_eq, clone_bytes};
use crate::attestation::verify_signature_with_pae;
use crate::errors::spec_verify_error_name;
use crate::literals::{
    lit_cycle_post, lit_cycle_pre, lit_depth_mid, lit_depth_pre, lit_err_manifest_empty,
    lit_expected_component_pre, lit_expected_release_pre, lit_kind_catalog, lit_kind_component,
    lit_kind_release, lit_kind_unknown, lit_quote_end, lit_root_expected_mid,
    lit_root_expected_pre, lit_root_failed_pre, lit_failed_sep, spec_cycle_post, spec_cycle_pre,
    spec_depth_mid, spec_depth_pre, spec_err_manifest_empty, spec_expected_component_pre,
    spec_expected_release_pre, spec_kind_catalog, spec_kind_component, spec_kind_release,
    spec_kind_unknown, spec_quote_end, spec_root_expected_mid, spec_root_expected_pre,
    spec_root_failed_pre, spec_failed_sep,
};
use crate::manifest::{first_manifest_line, spec_first_manifest_line};
use crate::model::{
    clone_artifact_links, AggregatedCatalogData, AggregatedComponentData, AggregatedReleaseData,
    ChainsightsCatalogPredicate, ChainsightsPredicate,
};
use crate::pae::{append_bytes, spec_decimal, u64_to_decimal};
use crate::predicate::{parse_predicate, parse_statement, spec_parse_predicate,
    spec_parse_statement};
use crate::attestation::spec_verify_manifest;
use crate::views::{ArtifactLinkV, ChainsightsPredicateV};

verus! {

broadcast use crate::views::lemma_bytes_deep_view;

/// The level a fetch belongs to; its distance from the root.
#[derive(Clone, Copy, Debug, PartialEq, Eq, Structural)]
pub enum FetchLevel {
    Root,
    Component,
    Release,
}

/// The depth of a fetch level: the root counts as 0.
pub open spec fn spec_level_depth(k: FetchLevel) -> int {
    match k {
        FetchLevel::Root => 0,
        FetchLevel::Component => 1,
        FetchLevel::Release => 2,
    }
}

/// The message recorded for a link whose URI was already visited.
pub open spec fn spec_cycle_message(uri: Seq<u8>) -> Seq<u8> {
    spec_cycle_pre() + uri + spec_cycle_post()
}

/// Builds the cycle message for a URI.
pub fn cycle_message(uri: &[u8]) -> (r: Vec<u8>)
    ensures
        r@ == spec_cycle_message(uri@),
{
    let mut m = lit_cycle_pre();
    append_bytes(&mut m, uri);
    let post = lit_cycle_post();
    append_bytes(&mut m, post.as_slice());
    m
}

/// The message recorded for a link whose depth would exceed the bound.
pub open spec fn spec_depth_message(max_depth: u64, uri: Seq<u8>) -> Seq<u8> {
    spec_depth_pre() + spec_decimal(max_depth as nat) + spec_depth_mid() + uri + spec_quote_end()
}

/// Builds the depth message for a URI.
pub fn depth_message(max_depth: u64, uri: &[u8]) -> (r: Vec<u8>)
    ensures
        r@ == spec_depth_message(max_depth, uri@),
{
    let mut m = lit_depth_pre();
    let d = u64_to_decimal(max_depth);
    append_bytes(&mut m, d.as_slice());
    let mid = lit_depth_mid();
    append_bytes(&mut m, mid.as_slice());
    append_bytes(&mut m, uri);
    let q = lit_quote_end();
    append_bytes(&mut m, q.as_slice());
    m
}

/// The name of a predicate's kind.
pub open spec fn spec_kind_name(p: ChainsightsPredicateV) -> Seq<u8> {
    match p {
        ChainsightsPredicateV::Catalog(_) => spec_kind_catalog(),
        ChainsightsPredicateV::Component(_) => spec_kind_component(),
        ChainsightsPredicateV::Release(_) => spec_kind_release(),
        ChainsightsPredicateV::Unknown { .. } => spec_kind_unknown(),
    }
}

/// Names a predicate's kind.
pub fn kind_name(p: &ChainsightsPredicate) -> (r: Vec<u8>)
    ensures
        r@ == spec_kind_name(p.deep_view()),
{
    match p {
        ChainsightsPredicate::Catalog(_) => lit_kind_catalog(),
        ChainsightsPredicate::Component(_) => lit_kind_component(),
        ChainsightsPredicate::Release(_) => lit_kind_release(),
        ChainsightsPredicate::Unknown { .. } => lit_kind_unknown(),
    }
}

/// The root error recorded when the root manifest is not a catalog.
pub open spec fn spec_root_kind_message(uri: Seq<u8>, kind: Seq<u8>) -> Seq<u8> {
    spec_root_expected_pre() + uri + spec_root_expected_mid() + kind
}

/// The root error recorded when processing the root manifest failed.
pub open spec fn spec_root_fail_message(uri: Seq<u8>, m: Seq<u8>) -> Seq<u8> {
    spec_root_failed_pre() + uri + spec_failed_sep() + m
}

/// The component error recorded for a predicate of the wrong kind.
pub open spec fn spec_expected_component_message(kind: Seq<u8>) -> Seq<u8> {
    spec_expected_component_pre() + kind
}

/// The release error recorded for a predicate of the wrong kind.
pub open spec fn spec_expected_release_message(kind: Seq<u8>) -> Seq<u8> {
    spec_expected_release_pre() + kind
}

/// What processing one fetched manifest yields: the fetch failure
/// message as handed in, or the first non-empty manifest line decoded,
/// verified against the expected identity, parsed as an in-toto
/// statement, and dispatched on its predicate type; each failure is
/// reported under its error's name.
pub open spec fn spec_process_manifest(fetched: Result<Seq<u8>, Seq<u8>>, identity: Seq<u8>) -> Result<
    ChainsightsPredicateV,
    Seq<u8>,
> {
    match fetched {
        Err(m) => Err(m),
        Ok(body) => match spec_first_manifest_line(body) {
            None => Err(spec_err_manifest_empty()),
            Some(line) => match spec_verify_manifest(line, identity) {
                Err(e) => Err(spec_verify_error_name(e)),
                Ok(payload) => match spec_parse_statement(payload) {
                    None => Err(crate::literals::spec_err_malformed_statement()),
                    Some(sv) => match spec_parse_predicate(sv.predicate_type, sv.predicate) {
                        None => Err(crate::literals::spec_err_malformed_predicate()),
                        Some(pv) => Ok(pv),
                    },
                },
            },
        },
    }
}

/// The view of a fetch outcome: the body bytes or the error message.
pub open spec fn spec_fetched(fetched: Result<Vec<u8>, Vec<u8>>) -> Result<Seq<u8>, Seq<u8>> {
    match fetched {
        Ok(b) => Ok(b@),
        Err(m) => Err(m@),
    }
}

/// Processes one fetched manifest through the verification pipeline.
pub fn process_manifest(fetched: Result<Vec<u8>, Vec<u8>>, identity: &[u8]) -> (r: Result<
    ChainsightsPredicate,
    Vec<u8>,
>)
    ensures
        match spec_process_manifest(spec_fetched(fetched), identity@) {
            Ok(pv) => r matches Ok(p) && p.deep_view() == pv,
            Err(m) => r matches Err(e) && e@ == m,
        },
{
    let body = match fetched {
        Ok(b) => b,
        Err(m) => {
            return Err(m);
        },
    };
    let line = match first_manifest_line(body.as_slice()) {
        Some(l) => l,
        None => {
            return Err(lit_err_manifest_empty());
        },
    };
    let payload = match verify_signature_with_pae(line.as_slice(), identity) {
        Ok(p) => p,
        Err(e) => {
            return Err(e.name());
        },
    };
    let stmt = match parse_statement(payload.as_slice()) {
        Ok(s) => s,
        Err(e) => {
            return Err(e.name());
        },
    };
    match parse_predicate(&stmt) {
        Ok(p) => Ok(p),
        Err(e) => Err(e.name()),
    }
}

/// Whether a list of URIs holds the given one.
pub fn contains_uri(v: &Vec<Vec<u8>>, x: &[u8]) -> (r: bool)
    ensures
        r == v.deep_view().contains(x@),
{
    let n = v.len();
    let mut i: usize = 0;
    while i < n
        invariant
            n == v@.len(),
            i <= n,
            forall|j: int| 0 <= j < i ==> v.deep_view()[j] != x@,
        decreases n - i,
    {
        if bytes_eq(v[i].as_slice(), x) {
            assert(v.deep_view()[i as int] == x@);
            return true;
        }
        assert(v.deep_view()[i as int] == v@[i as int]@);
        i += 1;
    }
    assert(!v.deep_view().contains(x@));
    false
}

/// The URI of the catalog entry at `k`.
pub open spec fn spec_entry_uri(c: ChainsightsCatalogPredicate, k: int) -> Seq<u8> {
    c.components@[k].component_attestation_link.uri@
}

/// The expected identity of the catalog entry at `k`.
pub open spec fn spec_entry_identity(c: ChainsightsCatalogPredicate, k: int) -> Seq<u8> {
    c.components@[k].component_attestation_link.expected_signer_identity@
}

/// The URI of the release link at `k` of a component under walk.
pub open spec fn spec_rel_uri(cc: AggregatedComponentData, k: int) -> Seq<u8> {
    match cc.component_predicate {
        Some(cp) => cp.release_attestations@[k].uri@,
        None => Seq::empty(),
    }
}

/// The expected identity of the release link at `k`.
pub open spec fn spec_rel_identity(cc: AggregatedComponentData, k: int) -> Seq<u8> {
    match cc.component_predicate {
        Some(cp) => cp.release_attestations@[k].expected_signer_identity@,
        None => Seq::empty(),
    }
}

/// How many release links a component under walk declares.
pub open spec fn spec_rel_len(cc: AggregatedComponentData) -> int {
    match cc.component_predicate {
        Some(cp) => cp.release_attestations@.len() as int,
        None => 0,
    }
}

/// 1 where the pending fetch sits at this level, else 0.
pub open spec fn spec_pending_count(
    p: Option<(Vec<u8>, Vec<u8>, FetchLevel)>,
    lvl: FetchLevel,
) -> int {
    match p {
        Some(q) => if q.2 == lvl {
            1int
        } else {
            0int
        },
        None => 0int,
    }
}

/// The release errors of the component under walk: of `cur` while it
/// is open, of the last closed component after it was pushed.
pub open spec fn spec_rel_errs_deep(
    cur: Option<AggregatedComponentData>,
    comps: Seq<AggregatedComponentData>,
) -> Seq<(Seq<u8>, Seq<u8>)> {
    match cur {
        Some(f) => f.release_errors.deep_view(),
        None => comps.last().release_errors.deep_view(),
    }
}

/// A recorded skip: the error pair names the passed-over link and
/// carries exactly the cycle message (for a URI already visited) or
/// the depth message.
pub open spec fn spec_skip_pair(
    pair: (Seq<u8>, Seq<u8>),
    uri: Seq<u8>,
    max_depth: u64,
    visited: Seq<Seq<u8>>,
) -> bool {
    &&& pair.0 == uri
    &&& ((pair.1 == spec_cycle_message(uri) && visited.contains(uri)) || pair.1
        == spec_depth_message(max_depth, uri))
}

/// A sequence that holds a value still holds it after a push.
proof fn lemma_contains_after_push(v: Seq<Seq<u8>>, x: Seq<u8>, y: Seq<u8>)
    requires
        v.contains(y),
    ensures
        v.push(x).contains(y),
{
    let k = choose|k: int| 0 <= k < v.len() && v[k] == y;
    assert(v.push(x)[k] == y);
}

/// A recorded skip stays recorded when another URI is marked visited.
proof fn lemma_skip_pair_push(
    pair: (Seq<u8>, Seq<u8>),
    uri: Seq<u8>,
    max_depth: u64,
    v: Seq<Seq<u8>>,
    x: Seq<u8>,
)
    requires
        spec_skip_pair(pair, uri, max_depth, v),
    ensures
        spec_skip_pair(pair, uri, max_depth, v.push(x)),
{
    if pair.1 == spec_cycle_message(uri) && v.contains(uri) {
        lemma_contains_after_push(v, x, uri);
    }
}

/// Announcing a fresh URI keeps the bookkeeping well-formed: the
/// visited list and the request history stay duplicate-free, and every
/// requested URI stays visited.
proof fn lemma_announce(pv: Seq<Seq<u8>>, oldreq: Seq<Seq<u8>>, uri: Seq<u8>)
    requires
        pv.no_duplicates(),
        oldreq.no_duplicates(),
        forall|i: int| 0 <= i < oldreq.len() ==> pv.contains(#[trigger] oldreq[i]),
        !pv.contains(uri),
    ensures
        pv.push(uri).no_duplicates(),
        (oldreq + seq![uri]).no_duplicates(),
        forall|i: int|
            0 <= i < (oldreq + seq![uri]).len() ==> pv.push(uri).contains(
                #[trigger] (oldreq + seq![uri])[i],
            ),
        pv.push(uri).contains(uri),
{
    let nv = pv.push(uri);
    let nr = oldreq + seq![uri];
    assert(nv[nv.len() - 1] == uri);
    assert(nv.contains(uri));
    assert forall|a: int, b: int|
        0 <= a < nv.len() && 0 <= b < nv.len() && a != b implies nv[a] != nv[b] by {
        if a < nv.len() - 1 && b < nv.len() - 1 {
            assert(nv[a] == pv[a] && nv[b] == pv[b]);
        } else if b == nv.len() - 1 {
            assert(nv[a] == pv[a]);
            assert(pv.contains(pv[a]));
        } else {
            assert(nv[b] == pv[b]);
            assert(pv.contains(pv[b]));
        }
    };
    assert forall|a: int, b: int|
        0 <= a < nr.len() && 0 <= b < nr.len() && a != b implies nr[a] != nr[b] by {
        if a < oldreq.len() && b < oldreq.len() {
        } else if b == nr.len() - 1 {
            assert(nr[a] == oldreq[a]);
            assert(pv.contains(oldreq[a]));
        } else {
            assert(nr[b] == oldreq[b]);
            assert(pv.contains(oldreq[b]));
        }
    };
    assert forall|i: int| 0 <= i < nr.len() implies nv.contains(#[trigger] nr[i]) by {
        if i < oldreq.len() {
            let k = choose|k: int| 0 <= k < pv.len() && pv[k] == oldreq[i];
            assert(nv[k] == nr[i]);
        } else {
            assert(nr[i] == uri);
            assert(nv[nv.len() - 1] == uri);
        }
    };
}

/// The bounded, cycle-safe walk over the catalog, component and
/// release manifests. The walk announces one fetch at a time through
/// `pending_fetch`; the caller performs the fetch and hands the result
/// to `step`. The walk marks a URI visited at the moment it announces
/// it, before the fetch, and never announces a visited URI again.
pub struct Traversal {
    /// The depth bound; a link below this depth is skipped with a
    /// depth error. The root counts as depth 0.
    pub max_depth: u64,
    /// Every URI marked so far; marking happens before the fetch.
    pub visited: Vec<Vec<u8>>,
    /// The aggregation built so far.
    pub agg: AggregatedCatalogData,
    /// How many catalog component entries were consumed.
    pub entry_idx: usize,
    /// The component whose releases are being walked, not yet pushed.
    pub cur_component: Option<AggregatedComponentData>,
    /// How many release links of the current component were consumed.
    pub rel_idx: usize,
    /// The announced fetch: URI, expected identity, level.
    pub pending: Option<(Vec<u8>, Vec<u8>, FetchLevel)>,
    /// Whether the walk is over.
    pub done: bool,
    /// The history of announced URIs, in order.
    pub requested: Ghost<Seq<Seq<u8>>>,
}

impl Traversal {
    /// Well-formedness: no URI is visited twice, every announced URI
    /// was marked visited at announce time (so the request history has
    /// no duplicates: cycle freedom), a pending fetch never lies below
    /// the depth bound, and the indices lie within their lists.
    pub open spec fn wf(&self) -> bool {
        &&& self.visited.deep_view().no_duplicates()
        &&& self.requested@.no_duplicates()
        &&& forall|i: int|
            0 <= i < self.requested@.len() ==> self.visited.deep_view().contains(
                #[trigger] self.requested@[i],
            )
        &&& match self.pending {
            Some(p) => {
                &&& !self.done
                &&& self.visited.deep_view().contains(p.0@)
                &&& spec_level_depth(p.2) <= self.max_depth
                &&& (p.2 is Component || p.2 is Release) ==> self.agg.catalog_predicate is Some
                &&& (p.2 is Release) ==> self.cur_component is Some
                &&& (p.2 is Root) ==> self.agg.root_error is None
                    && self.agg.catalog_predicate is None && self.cur_component is None
            },
            None => true,
        }
        &&& match self.agg.catalog_predicate {
            Some(c) => self.entry_idx <= c.components@.len(),
            None => self.entry_idx == 0,
        }
        &&& match self.cur_component {
            Some(cc) => {
                &&& self.agg.catalog_predicate is Some
                &&& cc.component_predicate matches Some(cp) && self.rel_idx
                    <= cp.release_attestations@.len()
            },
            None => true,
        }
    }

    /// How many catalog entries are still unconsumed.
    pub open spec fn entries_remaining(&self) -> int {
        match self.agg.catalog_predicate {
            Some(c) => c.components@.len() - self.entry_idx,
            None => 0,
        }
    }

    /// How many release links of the current component are still
    /// unconsumed.
    pub open spec fn rels_remaining(&self) -> int {
        match self.cur_component {
            Some(cc) => match cc.component_predicate {
                Some(cp) => cp.release_attestations@.len() - self.rel_idx,
                None => 0,
            },
            None => 0,
        }
    }

    /// Starts a walk at the root URI, which is marked visited and
    /// announced at depth 0.
    pub fn new(root_uri: Vec<u8>, root_identity: Vec<u8>, max_depth: u64) -> (r: Self)
        ensures
            r.wf(),
            r.max_depth == max_depth,
            r.agg.catalog_predicate is None,
            r.agg.components@.len() == 0,
            r.agg.root_error is None,
            r.agg.component_errors@.len() == 0,
            r.pending matches Some(p) && p.0@ == root_uri@ && p.1@ == root_identity@ && p.2
                == FetchLevel::Root,
            r.requested@ == seq![root_uri@],
            !r.done,
    {
        let ghost ruri = root_uri@;
        let ghost req: Seq<Seq<u8>> = seq![ruri];
        let mut visited: Vec<Vec<u8>> = Vec::new();
        visited.push(clone_bytes(&root_uri));
        proof {
            assert(visited.deep_view() =~= seq![ruri]);
            assert(visited.deep_view()[0] == ruri);
            assert(visited.deep_view().contains(ruri));
            assert(req[0] == ruri);
        }
        Traversal {
            max_depth,
            visited,
            agg: AggregatedCatalogData {
                catalog_predicate: None,
                components: Vec::new(),
                root_error: None,
                component_errors: Vec::new(),
            },
            entry_idx: 0,
            cur_component: None,
            rel_idx: 0,
            pending: Some((root_uri, root_identity, FetchLevel::Root)),
            done: false,
            requested: Ghost(req),
        }
    }

    /// The fetch the walk waits for, if any: the URI to GET and the
    /// identity its manifest must be signed under.
    pub fn pending_fetch(&self) -> (r: Option<(Vec<u8>, Vec<u8>)>)
        ensures
            match self.pending {
                Some(p) => r matches Some(q) && q.0@ == p.0@ && q.1@ == p.1@,
                None => r is None,
            },
    {
        match &self.pending {
            Some(p) => Some((clone_bytes(&p.0), clone_bytes(&p.1))),
            None => None,
        }
    }

    /// Walks on to the next fetchable link: records a cycle error for
    /// a link whose URI is visited and a depth error for one below the
    /// bound, closes the current component when its releases are done,
    /// and announces the next fetch or ends the walk.
    fn advance(&mut self)
        requires
            old(self).wf(),
            old(self).pending is None,
            !old(self).done,
        ensures
            final(self).wf(),
            final(self).max_depth == old(self).max_depth,
            final(self).agg.catalog_predicate == old(self).agg.catalog_predicate,
            final(self).agg.root_error == old(self).agg.root_error,
            old(self).agg.components@.is_prefix_of(final(self).agg.components@),
            old(self).agg.component_errors@.is_prefix_of(final(self).agg.component_errors@),
            old(self).visited.deep_view().is_prefix_of(final(self).visited.deep_view()),
            final(self).requested@ == old(self).requested@ + (match final(self).pending {
                Some(p) => seq![p.0@],
                None => Seq::<Seq<u8>>::empty(),
            }),
            final(self).pending is None ==> final(self).done,
            (match (old(self).cur_component, final(self).cur_component) {
                (Some(o), Some(f)) => f.component_predicate == o.component_predicate
                    && f.component_link_uri == o.component_link_uri && f.releases@ == o.releases@
                    && final(self).agg.components@ == old(self).agg.components@,
                (Some(o), None) => final(self).agg.components@.len() == old(self).agg.components@.len() + 1 && (final(self).agg.components@.last().component_predicate
                    == o.component_predicate && final(self).agg.components@.last().component_link_uri
                    == o.component_link_uri && final(self).agg.components@.last().releases@
                    == o.releases@),
                (None, Some(_)) => false,
                (None, None) => final(self).agg.components@ == old(self).agg.components@,
            }),
            final(self).done ==> final(self).cur_component is None && final(self).entries_remaining() == 0,
            (match final(self).agg.catalog_predicate {
                Some(c) => {
                    &&& final(self).entry_idx - old(self).entry_idx == final(self).agg.component_errors@.len() - old(self).agg.component_errors@.len()
                        + spec_pending_count(final(self).pending, FetchLevel::Component)
                    &&& forall|k: int|
                        old(self).agg.component_errors@.len() <= k < final(self).agg.component_errors@.len() ==> spec_skip_pair(
                            #[trigger] final(self).agg.component_errors.deep_view()[k],
                            spec_entry_uri(
                                c,
                                old(self).entry_idx + k - old(self).agg.component_errors@.len(),
                            ),
                            old(self).max_depth,
                            final(self).visited.deep_view(),
                        )
                    &&& (match final(self).pending {
                        Some(p) => p.2 is Component ==> p.0@ == spec_entry_uri(
                            c,
                            final(self).entry_idx - 1,
                        ) && p.1@ == spec_entry_identity(c, final(self).entry_idx - 1),
                        None => true,
                    })
                },
                None => final(self).agg.component_errors@ == old(self).agg.component_errors@,
            }),
            (match old(self).cur_component {
                Some(o) => ({
                    let rl = spec_rel_errs_deep(
                        final(self).cur_component,
                        final(self).agg.components@,
                    );
                    let consumed_end = (match final(self).cur_component {
                        Some(_) => final(self).rel_idx as int,
                        None => spec_rel_len(o),
                    });
                    &&& consumed_end - old(self).rel_idx == rl.len() - o.release_errors@.len()
                        + spec_pending_count(final(self).pending, FetchLevel::Release)
                    &&& o.release_errors.deep_view().is_prefix_of(rl)
                    &&& forall|k: int|
                        o.release_errors@.len() <= k < rl.len() ==> spec_skip_pair(
                            #[trigger] rl[k],
                            spec_rel_uri(o, old(self).rel_idx + k - o.release_errors@.len()),
                            old(self).max_depth,
                            final(self).visited.deep_view(),
                        )
                    &&& (match final(self).pending {
                        Some(p) => p.2 is Release ==> p.0@ == spec_rel_uri(
                            o,
                            final(self).rel_idx - 1,
                        ) && p.1@ == spec_rel_identity(o, final(self).rel_idx - 1),
                        None => true,
                    })
                }),
                None => true,
            }),
    {
        loop
            invariant
                self.wf(),
                self.pending is None,
                !self.done,
                self.max_depth == old(self).max_depth,
                self.agg.catalog_predicate == old(self).agg.catalog_predicate,
                self.agg.root_error == old(self).agg.root_error,
                old(self).agg.components@.is_prefix_of(self.agg.components@),
                old(self).agg.component_errors@.is_prefix_of(self.agg.component_errors@),
                old(self).visited.deep_view().is_prefix_of(self.visited.deep_view()),
                self.requested@ == old(self).requested@,
                (match (old(self).cur_component, self.cur_component) {
                    (Some(o), Some(f)) => f.component_predicate == o.component_predicate
                        && f.component_link_uri == o.component_link_uri && f.releases@
                        == o.releases@ && self.agg.components@ == old(self).agg.components@,
                    (Some(o), None) => self.agg.components@.len() == old(self).agg.components@.len() + 1 && (self.agg.components@.last().component_predicate
                        == o.component_predicate && self.agg.components@.last().component_link_uri
                        == o.component_link_uri && self.agg.components@.last().releases@
                        == o.releases@),
                    (None, Some(_)) => false,
                    (None, None) => self.agg.components@ == old(self).agg.components@,
                }),
                (match self.agg.catalog_predicate {
                    Some(c) => {
                        &&& self.entry_idx - old(self).entry_idx == self.agg.component_errors@.len()
                            - old(self).agg.component_errors@.len()
                        &&& forall|k: int|
                            old(self).agg.component_errors@.len() <= k
                                < self.agg.component_errors@.len() ==> spec_skip_pair(
                                #[trigger] self.agg.component_errors.deep_view()[k],
                                spec_entry_uri(
                                    c,
                                    old(self).entry_idx + k - old(self).agg.component_errors@.len(),
                                ),
                                old(self).max_depth,
                                self.visited.deep_view(),
                            )
                    },
                    None => self.agg.component_errors@ == old(self).agg.component_errors@,
                }),
                (match old(self).cur_component {
                    Some(o) => ({
                        let rl = spec_rel_errs_deep(self.cur_component, self.agg.components@);
                        let consumed_end = (match self.cur_component {
                            Some(_) => self.rel_idx as int,
                            None => spec_rel_len(o),
                        });
                        &&& consumed_end - old(self).rel_idx == rl.len() - o.release_errors@.len()
                        &&& o.release_errors.deep_view().is_prefix_of(rl)
                        &&& forall|k: int|
                            o.release_errors@.len() <= k < rl.len() ==> spec_skip_pair(
                                #[trigger] rl[k],
                                spec_rel_uri(o, old(self).rel_idx + k - o.release_errors@.len()),
                                old(self).max_depth,
                                self.visited.deep_view(),
                            )
                    }),
                    None => true,
                }),
            decreases
                    self.entries_remaining(),
                    (if self.cur_component is Some {
                        1int
                    } else {
                        0int
                    }),
                    self.rels_remaining(),
        {
            let ghost o_cur = old(self).cur_component;
            let ghost ce0 = old(self).agg.component_errors@.len() as int;
            if self.cur_component.is_some() {
                let n_rels = match &self.cur_component {
                    Some(cc) => match &cc.component_predicate {
                        Some(cp) => cp.release_attestations.len(),
                        None => unreached(),
                    },
                    None => unreached(),
                };
                proof {
                    assert(n_rels as int == spec_rel_len(o_cur.unwrap()));
                }
                if self.rel_idx >= n_rels {
                    let mut taken: Option<AggregatedComponentData> = None;
                    core::mem::swap(&mut self.cur_component, &mut taken);
                    match taken {
                        Some(cc) => self.agg.components.push(cc),
                        None => unreached(),
                    }
                    self.rel_idx = 0;
                    proof {
                        assert(self.agg.components@.last() == self.agg.components@[self.agg.components@.len() - 1]);
                    }
                } else {
                    let ghost ri = self.rel_idx as int;
                    let (uri, ident) = match &self.cur_component {
                        Some(cc) => match &cc.component_predicate {
                            Some(cp) => {
                                let l = &cp.release_attestations[self.rel_idx];
                                (clone_bytes(&l.uri), clone_bytes(&l.expected_signer_identity))
                            },
                            None => unreached(),
                        },
                        None => unreached(),
                    };
                    proof {
                        assert(uri@ == spec_rel_uri(o_cur.unwrap(), ri));
                        assert(ident@ == spec_rel_identity(o_cur.unwrap(), ri));
                    }
                    self.rel_idx += 1;
                    if contains_uri(&self.visited, uri.as_slice()) {
                        let msg = cycle_message(uri.as_slice());
                        let ghost guri = uri@;
                        let ghost gmsg = msg@;
                        let ghost prev_rl = spec_rel_errs_deep(self.cur_component, self.agg.components@);
                        match &mut self.cur_component {
                            Some(cc) => cc.release_errors.push((uri, msg)),
                            None => unreached(),
                        }
                        proof {
                            let rl_deep = spec_rel_errs_deep(self.cur_component, self.agg.components@);
                            assert(rl_deep =~= prev_rl.push((guri, gmsg)));
                            assert(spec_skip_pair((guri, gmsg), guri, old(self).max_depth, self.visited.deep_view()));
                        }
                    } else if 2 > self.max_depth {
                        let msg = depth_message(self.max_depth, uri.as_slice());
                        let ghost guri = uri@;
                        let ghost gmsg = msg@;
                        let ghost prev_rl = spec_rel_errs_deep(self.cur_component, self.agg.components@);
                        match &mut self.cur_component {
                            Some(cc) => cc.release_errors.push((uri, msg)),
                            None => unreached(),
                        }
                        proof {
                            let rl_deep = spec_rel_errs_deep(self.cur_component, self.agg.components@);
                            assert(rl_deep =~= prev_rl.push((guri, gmsg)));
                            assert(spec_skip_pair((guri, gmsg), guri, old(self).max_depth, self.visited.deep_view()));
                        }
                    } else {
                        let ghost prev_visited = self.visited.deep_view();
                        let ghost prev_req = self.requested@;
                        self.visited.push(clone_bytes(&uri));
                        proof {
                            assert(self.visited.deep_view() =~= prev_visited.push(uri@));
                            lemma_announce(prev_visited, prev_req, uri@);
                            let o = o_cur.unwrap();
                            let rl_deep = spec_rel_errs_deep(self.cur_component, self.agg.components@);
                            assert forall|k: int|
                                o.release_errors@.len() <= k < rl_deep.len() implies spec_skip_pair(
                                #[trigger] rl_deep[k],
                                spec_rel_uri(o, old(self).rel_idx + k - o.release_errors@.len()),
                                old(self).max_depth,
                                self.visited.deep_view(),
                            ) by {
                                lemma_skip_pair_push(
                                    rl_deep[k],
                                    spec_rel_uri(o, old(self).rel_idx + k - o.release_errors@.len()),
                                    old(self).max_depth,
                                    prev_visited,
                                    uri@,
                                );
                            }
                            let ce_deep = self.agg.component_errors.deep_view();
                            assert forall|k: int| ce0 <= k < ce_deep.len() implies (match self.agg.catalog_predicate {
                                Some(c) => spec_skip_pair(
                                    #[trigger] ce_deep[k],
                                    spec_entry_uri(c, old(self).entry_idx + k - ce0),
                                    old(self).max_depth,
                                    self.visited.deep_view(),
                                ),
                                None => true,
                            }) by {
                                match self.agg.catalog_predicate {
                                    Some(c) => {
                                        lemma_skip_pair_push(
                                            ce_deep[k],
                                            spec_entry_uri(c, old(self).entry_idx + k - ce0),
                                            old(self).max_depth,
                                            prev_visited,
                                            uri@,
                                        );
                                    },
                                    None => {},
                                }
                            }
                        }
                        let ghost req: Seq<Seq<u8>> = self.requested@ + seq![uri@];
                        self.requested = Ghost(req);
                        self.pending = Some((uri, ident, FetchLevel::Release));
                        return ;
                    }
                }
            } else {
                let n_entries = match &self.agg.catalog_predicate {
                    Some(c) => c.components.len(),
                    None => 0,
                };
                if self.entry_idx >= n_entries {
                    self.done = true;
                    proof {
                        match &self.agg.catalog_predicate {
                            Some(c) => {
                                assert(self.entry_idx == c.components@.len());
                            },
                            None => {},
                        }
                    }
                    return ;
                }
                let ghost ei = self.entry_idx as int;
                let (uri, ident) = match &self.agg.catalog_predicate {
                    Some(c) => {
                        let l = &c.components[self.entry_idx].component_attestation_link;
                        (clone_bytes(&l.uri), clone_bytes(&l.expected_signer_identity))
                    },
                    None => unreached(),
                };
                proof {
                    assert(uri@ == spec_entry_uri(self.agg.catalog_predicate.unwrap(), ei));
                    assert(ident@ == spec_entry_identity(self.agg.catalog_predicate.unwrap(), ei));
                }
                self.entry_idx += 1;
                if contains_uri(&self.visited, uri.as_slice()) {
                    let msg = cycle_message(uri.as_slice());
                    let ghost guri = uri@;
                    let ghost gmsg = msg@;
                    let ghost prev_ce = self.agg.component_errors.deep_view();
                    self.agg.component_errors.push((uri, msg));
                    proof {
                        assert(self.agg.component_errors.deep_view() =~= prev_ce.push((guri, gmsg)));
                        assert(spec_skip_pair((guri, gmsg), guri, old(self).max_depth, self.visited.deep_view()));
                    }
                } else if 1 > self.max_depth {
                    let msg = depth_message(self.max_depth, uri.as_slice());
                    let ghost guri = uri@;
                    let ghost gmsg = msg@;
                    let ghost prev_ce = self.agg.component_errors.deep_view();
                    self.agg.component_errors.push((uri, msg));
                    proof {
                        assert(self.agg.component_errors.deep_view() =~= prev_ce.push((guri, gmsg)));
                        assert(spec_skip_pair((guri, gmsg), guri, old(self).max_depth, self.visited.deep_view()));
                    }
                } else {
                    let ghost prev_visited = self.visited.deep_view();
                    let ghost prev_req = self.requested@;
                    self.visited.push(clone_bytes(&uri));
                    proof {
                        assert(self.visited.deep_view() =~= prev_visited.push(uri@));
                        lemma_announce(prev_visited, prev_req, uri@);
                        let ce_deep = self.agg.component_errors.deep_view();
                        assert forall|k: int| ce0 <= k < ce_deep.len() implies (match self.agg.catalog_predicate {
                            Some(c) => spec_skip_pair(
                                #[trigger] ce_deep[k],
                                spec_entry_uri(c, old(self).entry_idx + k - ce0),
                                old(self).max_depth,
                                self.visited.deep_view(),
                            ),
                            None => true,
                        }) by {
                            match self.agg.catalog_predicate {
                                Some(c) => {
                                    lemma_skip_pair_push(
                                        ce_deep[k],
                                        spec_entry_uri(c, old(self).entry_idx + k - ce0),
                                        old(self).max_depth,
                                        prev_visited,
                                        uri@,
                                    );
                                },
                                None => {},
                            }
                        }
                        match o_cur {
                            Some(o) => {
                                let rl_deep = spec_rel_errs_deep(self.cur_component, self.agg.components@);
                                assert forall|k: int|
                                    o.release_errors@.len() <= k < rl_deep.len() implies spec_skip_pair(
                                    #[trigger] rl_deep[k],
                                    spec_rel_uri(o, old(self).rel_idx + k - o.release_errors@.len()),
                                    old(self).max_depth,
                                    self.visited.deep_view(),
                                ) by {
                                    lemma_skip_pair_push(
                                        rl_deep[k],
                                        spec_rel_uri(o, old(self).rel_idx + k - o.release_errors@.len()),
                                        old(self).max_depth,
                                        prev_visited,
                                        uri@,
                                    );
                                }
                            },
                            None => {},
                        }
                    }
                    let ghost req: Seq<Seq<u8>> = self.requested@ + seq![uri@];
                    self.requested = Ghost(req);
                    self.pending = Some((uri, ident, FetchLevel::Component));
                    return ;
                }
            }
        }
    }

    /// Consumes the announced fetch's outcome: verifies and decodes
    /// the manifest, aggregates the predicate or records the failure
    /// at the level the fetch belonged to, and walks on.
    pub fn step(&mut self, fetched: Result<Vec<u8>, Vec<u8>>)
        requires
            old(self).wf(),
            old(self).pending is Some,
        ensures
            final(self).wf(),
            final(self).max_depth == old(self).max_depth,
            old(self).visited.deep_view().is_prefix_of(final(self).visited.deep_view()),
            old(self).agg.components@.is_prefix_of(final(self).agg.components@),
            old(self).agg.component_errors@.is_prefix_of(final(self).agg.component_errors@),
            final(self).requested@ == old(self).requested@ + (match final(self).pending {
                Some(p) => seq![p.0@],
                None => Seq::<Seq<u8>>::empty(),
            }),
            final(self).pending is None ==> final(self).done,
            ({
                let p = old(self).pending.unwrap();
                p.2 is Root ==> match spec_process_manifest(spec_fetched(fetched), p.1@) {
                    Ok(pv) => match pv {
                        ChainsightsPredicateV::Catalog(cv) => (
                        final(self).agg.catalog_predicate matches Some(c) && c.deep_view() == cv)
                            && final(self).agg.root_error is None,
                        _ => (final(self).agg.root_error matches Some(m) && m@
                            == spec_root_kind_message(p.0@, spec_kind_name(pv))) && final(self).agg.catalog_predicate is None,
                    },
                    Err(m) => (final(self).agg.root_error matches Some(e) && e@
                        == spec_root_fail_message(p.0@, m)) && final(self).agg.catalog_predicate is None,
                }
            }),
            ({
                let p = old(self).pending.unwrap();
                p.2 is Component ==> match spec_process_manifest(spec_fetched(fetched), p.1@) {
                    Ok(pv) => match pv {
                        ChainsightsPredicateV::Component(cv) => {
                            ||| (final(self).cur_component matches Some(cc)
                                && cc.component_predicate matches Some(cp) && cp.deep_view() == cv
                                && cc.component_link_uri@ == p.0@)
                            ||| (final(self).agg.components@.len() == old(self).agg.components@.len() + 1 && (final(self).agg.components@.last().component_predicate matches Some(cp)
                                && cp.deep_view() == cv))
                        },
                        _ => final(self).agg.component_errors@.len() > old(self).agg.component_errors@.len()
                            && final(self).agg.component_errors.deep_view()[old(self).agg.component_errors@.len() as int] == (
                            p.0@,
                            spec_expected_component_message(spec_kind_name(pv)),
                        ),
                    },
                    Err(m) => final(self).agg.component_errors@.len() > old(self).agg.component_errors@.len()
                        && final(self).agg.component_errors.deep_view()[old(self).agg.component_errors@.len() as int] == (p.0@, m),
                }
            }),
            final(self).done ==> final(self).cur_component is None && final(self).entries_remaining() == 0,
            ({
                let p = old(self).pending.unwrap();
                p.2 is Root ==> final(self).agg.components@ == old(self).agg.components@ && final(self).cur_component is None
            }),
            ({
                let p = old(self).pending.unwrap();
                p.2 is Release ==> ({
                    let o = old(self).cur_component.unwrap();
                    let fin_comp = (match final(self).cur_component {
                        Some(f) => f,
                        None => final(self).agg.components@.last(),
                    });
                    let rl = spec_rel_errs_deep(
                        final(self).cur_component,
                        final(self).agg.components@,
                    );
                    &&& (match spec_process_manifest(spec_fetched(fetched), p.1@) {
                        Ok(pv) => match pv {
                            ChainsightsPredicateV::Release(rv) => {
                                &&& fin_comp.releases@.len() == o.releases@.len() + 1
                                &&& o.releases@.is_prefix_of(fin_comp.releases@)
                                &&& ({
                                    let e = fin_comp.releases@.last();
                                    &&& e.release_predicate matches Some(rp) && rp.deep_view()
                                        == rv
                                    &&& e.metadata_artifacts.deep_view() == (
                                    match rv.metadata_links {
                                        Some(ls) => ls,
                                        None => Seq::<ArtifactLinkV>::empty(),
                                    })
                                    &&& e.release_link_uri@ == p.0@
                                    &&& e.artifact_fetch_errors@.len() == 0
                                })
                            },
                            _ => fin_comp.releases@ == o.releases@ && rl.len()
                                > o.release_errors@.len() && rl[o.release_errors@.len() as int]
                                == (p.0@, spec_expected_release_message(spec_kind_name(pv))),
                        },
                        Err(m) => fin_comp.releases@ == o.releases@ && rl.len()
                            > o.release_errors@.len() && rl[o.release_errors@.len() as int] == (
                        p.0@, m),
                    })
                    &&& ({
                        let base: int = (match spec_process_manifest(spec_fetched(fetched), p.1@) {
                            Ok(ChainsightsPredicateV::Release(_)) => o.release_errors@.len() as int,
                            _ => o.release_errors@.len() as int + 1,
                        });
                        forall|k: int|
                            base <= k < rl.len() ==> spec_skip_pair(
                                #[trigger] rl[k],
                                rl[k].0,
                                old(self).max_depth,
                                final(self).visited.deep_view(),
                            )
                    })
                })
            }),
            ({
                let p = old(self).pending.unwrap();
                let outc = spec_process_manifest(spec_fetched(fetched), p.1@);
                let recorded: int = if p.2 is Component && !(outc matches Ok(
                    ChainsightsPredicateV::Component(_),
                )) {
                    1int
                } else {
                    0int
                };
                match final(self).agg.catalog_predicate {
                    Some(c) => ({
                        let base_idx: int = if p.2 is Root {
                            0int
                        } else {
                            old(self).entry_idx as int
                        };
                        let appended0: int = old(self).agg.component_errors@.len() + recorded;
                        &&& final(self).entry_idx - base_idx == final(self).agg.component_errors@.len() - appended0 + spec_pending_count(
                            final(self).pending,
                            FetchLevel::Component,
                        )
                        &&& forall|k: int|
                            appended0 <= k < final(self).agg.component_errors@.len()
                                ==> spec_skip_pair(
                                #[trigger] final(self).agg.component_errors.deep_view()[k],
                                spec_entry_uri(c, base_idx + k - appended0),
                                old(self).max_depth,
                                final(self).visited.deep_view(),
                            )
                        &&& (match final(self).pending {
                            Some(q) => q.2 is Component ==> q.0@ == spec_entry_uri(
                                c,
                                final(self).entry_idx - 1,
                            ) && q.1@ == spec_entry_identity(c, final(self).entry_idx - 1),
                            None => true,
                        })
                    }),
                    None => final(self).agg.component_errors@.len() == old(self).agg.component_errors@.len() + recorded,
                }
            }),
    {
        let ghost old_errs_len = self.agg.component_errors@.len();
        let mut taken: Option<(Vec<u8>, Vec<u8>, FetchLevel)> = None;
        core::mem::swap(&mut self.pending, &mut taken);
        let (uri, ident, level) = match taken {
            Some(p) => p,
            None => unreached(),
        };
        let outcome = process_manifest(fetched, ident.as_slice());
        match level {
            FetchLevel::Root => {
                match outcome {
                    Ok(ChainsightsPredicate::Catalog(c)) => {
                        self.agg.catalog_predicate = Some(c);
                        self.entry_idx = 0;
                    },
                    Ok(other) => {
                        let kind = kind_name(&other);
                        let mut m = lit_root_expected_pre();
                        append_bytes(&mut m, uri.as_slice());
                        let mid = lit_root_expected_mid();
                        append_bytes(&mut m, mid.as_slice());
                        append_bytes(&mut m, kind.as_slice());
                        self.agg.root_error = Some(m);
                    },
                    Err(e) => {
                        let mut m = lit_root_failed_pre();
                        append_bytes(&mut m, uri.as_slice());
                        let sep = lit_failed_sep();
                        append_bytes(&mut m, sep.as_slice());
                        append_bytes(&mut m, e.as_slice());
                        self.agg.root_error = Some(m);
                    },
                }
            },
            FetchLevel::Component => {
                match outcome {
                    Ok(ChainsightsPredicate::Component(c)) => {
                        self.cur_component = Some(
                            AggregatedComponentData {
                                component_predicate: Some(c),
                                releases: Vec::new(),
                                component_link_uri: uri,
                                release_errors: Vec::new(),
                            },
                        );
                        self.rel_idx = 0;
                    },
                    Ok(other) => {
                        let kind = kind_name(&other);
                        let mut m = lit_expected_component_pre();
                        append_bytes(&mut m, kind.as_slice());
                        self.agg.component_errors.push((uri, m));
                    },
                    Err(e) => {
                        self.agg.component_errors.push((uri, e));
                    },
                }
            },
            FetchLevel::Release => {
                match outcome {
                    Ok(ChainsightsPredicate::Release(rp)) => {
                        let metadata_artifacts = match &rp.metadata_links {
                            Some(ls) => clone_artifact_links(ls),
                            None => Vec::new(),
                        };
                        proof {
                            match &rp.metadata_links {
                                Some(ls) => {},
                                None => {
                                    assert(metadata_artifacts.deep_view() =~= Seq::<
                                        ArtifactLinkV,
                                    >::empty());
                                },
                            }
                        }
                        let rel = AggregatedReleaseData {
                            release_predicate: Some(rp),
                            metadata_artifacts,
                            release_link_uri: uri,
                            artifact_fetch_errors: Vec::new(),
                        };
                        let ghost grel = rel;
                        let ghost prev_rels = (match &self.cur_component {
                            Some(cc) => cc.releases@,
                            None => Seq::empty(),
                        });
                        match &mut self.cur_component {
                            Some(cc) => cc.releases.push(rel),
                            None => unreached(),
                        }
                        proof {
                            match &self.cur_component {
                                Some(cc) => {
                                    assert(cc.releases@ == prev_rels.push(grel));
                                    assert(cc.releases@.last() == grel);
                                },
                                None => {},
                            }
                        }
                    },
                    Ok(other) => {
                        let kind = kind_name(&other);
                        let mut m = lit_expected_release_pre();
                        append_bytes(&mut m, kind.as_slice());
                        let ghost guri = uri@;
                        let ghost gmsg = m@;
                        let ghost prev_rl = spec_rel_errs_deep(
                            self.cur_component,
                            self.agg.components@,
                        );
                        match &mut self.cur_component {
                            Some(cc) => cc.release_errors.push((uri, m)),
                            None => unreached(),
                        }
                        proof {
                            assert(spec_rel_errs_deep(self.cur_component, self.agg.components@)
                                =~= prev_rl.push((guri, gmsg)));
                        }
                    },
                    Err(e) => {
                        let ghost guri = uri@;
                        let ghost gmsg = e@;
                        let ghost prev_rl = spec_rel_errs_deep(
                            self.cur_component,
                            self.agg.components@,
                        );
                        match &mut self.cur_component {
                            Some(cc) => cc.release_errors.push((uri, e)),
                            None => unreached(),
                        }
                        proof {
                            assert(spec_rel_errs_deep(self.cur_component, self.agg.components@)
                                =~= prev_rl.push((guri, gmsg)));
                        }
                    },
                }
            },
        }
        let ghost mid_errs = self.agg.component_errors@;
        let ghost mid_cur = self.cur_component;
        let ghost mid_rl = spec_rel_errs_deep(self.cur_component, self.agg.components@);
        self.advance();
        proof {
            let fin = self.agg.component_errors@;
            if mid_errs.len() > old_errs_len {
                assert(fin.subrange(0, mid_errs.len() as int) == mid_errs);
                assert(fin[old_errs_len as int] == mid_errs[old_errs_len as int]);
                assert(self.agg.component_errors.deep_view()[old_errs_len as int] == (
                    fin[old_errs_len as int].0@,
                    fin[old_errs_len as int].1@,
                ));
            }
            if mid_cur is Some {
                let fin_rl = spec_rel_errs_deep(self.cur_component, self.agg.components@);
                assert(mid_rl.is_prefix_of(fin_rl));
                assert(fin_rl.subrange(0, mid_rl.len() as int) =~= mid_rl);
                assert forall|i: int| 0 <= i < mid_rl.len() implies fin_rl[i] == mid_rl[i] by {
                    assert(fin_rl.subrange(0, mid_rl.len() as int)[i] == fin_rl[i]);
                }
            }
        }
    }

    /// Ends the walk and hands out what was aggregated so far; a
    /// component whose releases were still being walked is closed and
    /// included.
    pub fn finish(self) -> (r: AggregatedCatalogData)
        requires
            self.wf(),
        ensures
            r.catalog_predicate == self.agg.catalog_predicate,
            r.root_error == self.agg.root_error,
            r.component_errors@ == self.agg.component_errors@,
            (match self.cur_component {
                Some(cc) => r.components@ == self.agg.components@.push(cc),
                None => r.components@ == self.agg.components@,
            }),
    {
        let mut s = self;
        let mut taken: Option<AggregatedComponentData> = None;
        core::mem::swap(&mut s.cur_component, &mut taken);
        match taken {
            Some(cc) => s.agg.components.push(cc),
            None => {},
        }
        s.agg
    }
}

/// Cycle freedom: in a well-formed traversal the request history has
/// no duplicates — a manifest URI is fetched at most once in any walk,
/// because a URI is marked visited when announced and only unvisited
/// URIs are announced.
pub proof fn lemma_requests_unique(t: &Traversal)
    requires
        t.wf(),
    ensures
        t.requested@.no_duplicates(),
{
}

/// Depth bound: a well-formed traversal only waits for a fetch whose
/// level lies within the configured depth bound; the root counts as
/// depth 0.
pub proof fn lemma_depth_bounded(t: &Traversal)
    requires
        t.wf(),
    ensures
        t.pending matches Some(p) ==> spec_level_depth(p.2) <= t.max_depth,
{
}

} // verus!
