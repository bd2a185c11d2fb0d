use vstd::prelude::*;
use crate::jsonval::{
    as_array, as_str_bytes, clone_value, get_field, is_null, json_rep, obj_entries, spec_obj_field,
    spec_str_field, JsonData,
};
use crate::views::{
    lemma_bytes_deep_view, lemma_bytes_list_deep_view, lemma_opt_bytes_deep_view, ArtifactLinkV,
    AttestationLinkV,
};
use crate::model::{
    ArtifactLink, AttestationLink, CatalogComponentEntry, ChainsightsCatalogPredicate,
    ChainsightsComponentPredicate, ChainsightsPredicate, ChainsightsReleasePredicate, Generator,
    InTotoStatement, RepositoryInfo, SubCatalogLink, SubComponentLink, Subject,
};
use crate::views::{
    CatalogComponentEntryV, ChainsightsCatalogPredicateV, ChainsightsComponentPredicateV,
    ChainsightsPredicateV, ChainsightsReleasePredicateV, GeneratorV, InTotoStatementV,
    RepositoryInfoV, SubCatalogLinkV, SubComponentLinkV, SubjectV,
};
use crate::ascii::{bytes_eq, clone_bytes};
use crate::errors::VerifyError;
use crate::jsonval::{json_of, parse_json};
use crate::literals::{
    lit_catalog_v1, lit_component_v1, lit_release_v1, spec_catalog_v1, spec_component_v1,
    spec_release_v1,
};

verus! {

broadcast use lemma_bytes_deep_view, lemma_opt_bytes_deep_view, lemma_bytes_list_deep_view;

/// An optional string field: `Some(None)` where the field is absent or
/// null, `Some(Some(s))` where it is the string `s`, `None` where it is
/// present with another type.
pub open spec fn spec_opt_str_field(j: JsonData, key: Seq<char>) -> Option<Option<Seq<u8>>> {
    match spec_obj_field(j, key) {
        None => Some(None),
        Some(JsonData::Null) => Some(None),
        Some(JsonData::Str(s)) => Some(Some(s)),
        Some(_) => None,
    }
}

/// Whether `j` is a JSON object all of whose values are strings, the
/// shape of a digest or label map.
pub open spec fn spec_is_str_map(j: JsonData) -> bool {
    match j {
        JsonData::Obj(m) => forall|k: Seq<char>| m.contains_key(k) ==> m[k] is Str,
        _ => false,
    }
}

/// An optional string-map field: `Some(None)` where absent or null,
/// `Some(Some(d))` where it is an object of strings `d`, `None` where
/// it is present with another shape.
pub open spec fn spec_opt_map_field(j: JsonData, key: Seq<char>) -> Option<Option<JsonData>> {
    match spec_obj_field(j, key) {
        None => Some(None),
        Some(JsonData::Null) => Some(None),
        Some(d) => if spec_is_str_map(d) {
            Some(Some(d))
        } else {
            None
        },
    }
}

/// Reads a required string field.
pub fn str_field(v: &serde_json::Value, key: &str) -> (r: Result<Vec<u8>, ()>)
    ensures
        match spec_str_field(json_rep(*v), key@) {
            Some(s) => r matches Ok(b) && b@ == s,
            None => r is Err,
        },
{
    match get_field(v, key) {
        Some(f) => match as_str_bytes(f) {
            Some(b) => Ok(b),
            None => Err(()),
        },
        None => Err(()),
    }
}

/// Reads an optional string field; a null field counts as absent.
pub fn opt_str_field(v: &serde_json::Value, key: &str) -> (r: Result<Option<Vec<u8>>, ()>)
    ensures
        match spec_opt_str_field(json_rep(*v), key@) {
            Some(Some(s)) => r matches Ok(Some(b)) && b@ == s,
            Some(None) => r matches Ok(o) && o is None,
            None => r is Err,
        },
{
    match get_field(v, key) {
        None => Ok(None),
        Some(f) => if is_null(f) {
            Ok(None)
        } else {
            match as_str_bytes(f) {
                Some(b) => Ok(Some(b)),
                None => Err(()),
            }
        },
    }
}

/// Checks that a value is an object mapping strings to strings.
pub fn check_str_map(v: &serde_json::Value) -> (r: bool)
    ensures
        r == spec_is_str_map(json_rep(*v)),
{
    let ghost jd = json_rep(*v);
    let es = match obj_entries(v) {
        Some(es) => es,
        None => {
            return false;
        },
    };
    let ghost m = (match jd {
        JsonData::Obj(m) => m,
        _ => Map::empty(),
    });
    let n = es.len();
    let mut i: usize = 0;
    while i < n
        invariant
            n == es@.len(),
            jd == json_rep(*v),
            jd is Obj,
            m == (match jd {
                JsonData::Obj(m0) => m0,
                _ => Map::<Seq<char>, JsonData>::empty(),
            }),
            forall|t: int|
                0 <= t < es@.len() ==> m.contains_key(es@[t].0@) && json_rep(es@[t].1)
                    == m[es@[t].0@],
            forall|t: int, u: int| 0 <= t < u < es@.len() ==> es@[t].0@ != es@[u].0@,
            forall|k: Seq<char>|
                m.contains_key(k) ==> exists|t: int| 0 <= t < es@.len() && es@[t].0@ == k,
            i <= n,
            forall|t: int| 0 <= t < i ==> json_rep(es@[t].1) is Str,
        decreases n - i,
    {
        match as_str_bytes(&es[i].1) {
            Some(_) => {},
            None => {
                assert(m.contains_key(es@[i as int].0@) && !(m[es@[i as int].0@] is Str));
                return false;
            },
        }
        i += 1;
    }
    proof {
        assert forall|k: Seq<char>| m.contains_key(k) implies m[k] is Str by {
            let t = choose|t: int| 0 <= t < es@.len() && es@[t].0@ == k;
            assert(json_rep(es@[t].1) is Str);
        }
    }
    true
}

/// Reads an optional string-map field, keeping it as the JSON object
/// it arrived as; a null field counts as absent.
pub fn opt_map_field(v: &serde_json::Value, key: &str) -> (r: Result<
    Option<serde_json::Value>,
    (),
>)
    ensures
        match spec_opt_map_field(json_rep(*v), key@) {
            Some(Some(d)) => r matches Ok(Some(val)) && json_rep(val) == d,
            Some(None) => r matches Ok(o) && o is None,
            None => r is Err,
        },
{
    match get_field(v, key) {
        None => Ok(None),
        Some(f) => if is_null(f) {
            Ok(None)
        } else if check_str_map(f) {
            Ok(Some(clone_value(f)))
        } else {
            Err(())
        },
    }
}

/// What parsing an attestation link from its JSON value yields.
pub open spec fn spec_parse_attestation_link(j: JsonData) -> Option<AttestationLinkV> {
    match (
        spec_str_field(j, "uri"@),
        spec_str_field(j, "expectedSignerIdentity"@),
        spec_opt_map_field(j, "digest"@),
        spec_opt_str_field(j, "mediaType"@),
    ) {
        (Some(uri), Some(ident), Some(dg), Some(mt)) => Some(
            AttestationLinkV {
                uri,
                digest: dg,
                media_type: mt,
                expected_signer_identity: ident,
            },
        ),
        _ => None,
    }
}

/// Parses an attestation link: `uri` and `expectedSignerIdentity` are
/// required strings; `digest` and `mediaType` are optional.
pub fn parse_attestation_link(v: &serde_json::Value) -> (r: Result<AttestationLink, ()>)
    ensures
        match spec_parse_attestation_link(json_rep(*v)) {
            Some(lv) => r matches Ok(l) && l.deep_view() == lv,
            None => r is Err,
        },
{
    let uri = match str_field(v, "uri") {
        Ok(b) => b,
        Err(_) => {
            return Err(());
        },
    };
    let ident = match str_field(v, "expectedSignerIdentity") {
        Ok(b) => b,
        Err(_) => {
            return Err(());
        },
    };
    let digest = match opt_map_field(v, "digest") {
        Ok(d) => d,
        Err(_) => {
            return Err(());
        },
    };
    let media_type = match opt_str_field(v, "mediaType") {
        Ok(m) => m,
        Err(_) => {
            return Err(());
        },
    };
    Ok(AttestationLink { uri, digest, media_type, expected_signer_identity: ident })
}

/// What parsing an artifact link from its JSON value yields; here the
/// signer identity is optional.
pub open spec fn spec_parse_artifact_link(j: JsonData) -> Option<ArtifactLinkV> {
    match (
        spec_str_field(j, "uri"@),
        spec_opt_str_field(j, "expectedSignerIdentity"@),
        spec_opt_map_field(j, "digest"@),
        spec_opt_str_field(j, "mediaType"@),
    ) {
        (Some(uri), Some(ident), Some(dg), Some(mt)) => Some(
            ArtifactLinkV {
                uri,
                digest: dg,
                media_type: mt,
                expected_signer_identity: ident,
            },
        ),
        _ => None,
    }
}

/// Parses an artifact link: `uri` is required; `digest`, `mediaType`
/// and `expectedSignerIdentity` are optional.
pub fn parse_artifact_link(v: &serde_json::Value) -> (r: Result<ArtifactLink, ()>)
    ensures
        match spec_parse_artifact_link(json_rep(*v)) {
            Some(lv) => r matches Ok(l) && l.deep_view() == lv,
            None => r is Err,
        },
{
    let uri = match str_field(v, "uri") {
        Ok(b) => b,
        Err(_) => {
            return Err(());
        },
    };
    let ident = match opt_str_field(v, "expectedSignerIdentity") {
        Ok(b) => b,
        Err(_) => {
            return Err(());
        },
    };
    let digest = match opt_map_field(v, "digest") {
        Ok(d) => d,
        Err(_) => {
            return Err(());
        },
    };
    let media_type = match opt_str_field(v, "mediaType") {
        Ok(m) => m,
        Err(_) => {
            return Err(());
        },
    };
    Ok(ArtifactLink { uri, digest, media_type, expected_signer_identity: ident })
}

/// Element-wise parsing of a JSON array: `Some` of the parsed elements
/// in order iff every element parses.
pub open spec fn spec_parse_elems<T>(s: Seq<JsonData>, f: spec_fn(JsonData) -> Option<T>) -> Option<
    Seq<T>,
>
    decreases s.len(),
{
    if s.len() == 0 {
        Some(Seq::empty())
    } else {
        match (spec_parse_elems(s.drop_last(), f), f(s.last())) {
            (Some(init), Some(x)) => Some(init.push(x)),
            _ => None,
        }
    }
}

/// Unfolds element-wise parsing by one element at the end of a prefix.
pub proof fn lemma_parse_elems_step<T>(s: Seq<JsonData>, f: spec_fn(JsonData) -> Option<T>, i: int)
    requires
        0 <= i < s.len(),
    ensures
        spec_parse_elems(s.take(i + 1), f) == (match (spec_parse_elems(s.take(i), f), f(s[i])) {
            (Some(init), Some(x)) => Some(init.push(x)),
            _ => None::<Seq<T>>,
        }),
{
    assert(s.take(i + 1).drop_last() =~= s.take(i));
    assert(s.take(i + 1).last() == s[i]);
}

/// A prefix that fails to parse fails the whole array.
pub proof fn lemma_parse_elems_prefix_none<T>(
    s: Seq<JsonData>,
    f: spec_fn(JsonData) -> Option<T>,
    i: int,
)
    requires
        0 <= i <= s.len(),
        spec_parse_elems(s.take(i), f) is None,
    ensures
        spec_parse_elems(s, f) is None,
    decreases s.len() - i,
{
    if i == s.len() {
        assert(s.take(i) =~= s);
    } else {
        lemma_parse_elems_step(s, f, i);
        lemma_parse_elems_prefix_none(s, f, i + 1);
    }
}

/// The element parser of attestation-link arrays.
pub open spec fn att_link_elem() -> spec_fn(JsonData) -> Option<AttestationLinkV> {
    |j: JsonData| spec_parse_attestation_link(j)
}

/// The element parser of artifact-link arrays.
pub open spec fn art_link_elem() -> spec_fn(JsonData) -> Option<ArtifactLinkV> {
    |j: JsonData| spec_parse_artifact_link(j)
}

/// The element parser of string arrays.
pub open spec fn str_elem() -> spec_fn(JsonData) -> Option<Seq<u8>> {
    |j: JsonData|
        match j {
            JsonData::Str(s) => Some(s),
            _ => None,
        }
}

/// A required array field, parsed element-wise.
pub open spec fn spec_elems_field<T>(
    j: JsonData,
    key: Seq<char>,
    f: spec_fn(JsonData) -> Option<T>,
) -> Option<Seq<T>> {
    match spec_obj_field(j, key) {
        Some(JsonData::Arr(s)) => spec_parse_elems(s, f),
        _ => None,
    }
}

/// An optional array field, parsed element-wise; a null field counts
/// as absent.
pub open spec fn spec_opt_elems_field<T>(
    j: JsonData,
    key: Seq<char>,
    f: spec_fn(JsonData) -> Option<T>,
) -> Option<Option<Seq<T>>> {
    match spec_obj_field(j, key) {
        None => Some(None),
        Some(JsonData::Null) => Some(None),
        Some(JsonData::Arr(s)) => match spec_parse_elems(s, f) {
            Some(ts) => Some(Some(ts)),
            None => None,
        },
        Some(_) => None,
    }
}

/// A required attestation-link field.
pub open spec fn spec_link_field(j: JsonData, key: Seq<char>) -> Option<AttestationLinkV> {
    match spec_obj_field(j, key) {
        Some(l) => spec_parse_attestation_link(l),
        None => None,
    }
}

/// A required string-map field.
pub open spec fn spec_map_field(j: JsonData, key: Seq<char>) -> Option<JsonData> {
    match spec_obj_field(j, key) {
        Some(d) => if spec_is_str_map(d) {
            Some(d)
        } else {
            None
        },
        None => None,
    }
}

/// An optional generator field; a null field counts as absent.
pub open spec fn spec_opt_gen_field(j: JsonData, key: Seq<char>) -> Option<Option<GeneratorV>> {
    match spec_obj_field(j, key) {
        None => Some(None),
        Some(JsonData::Null) => Some(None),
        Some(g) => match spec_parse_generator(g) {
            Some(gv) => Some(Some(gv)),
            None => None,
        },
    }
}

/// What parsing a generator yields: its required `purl`.
pub open spec fn spec_parse_generator(j: JsonData) -> Option<GeneratorV> {
    match spec_str_field(j, "purl"@) {
        Some(p) => Some(GeneratorV { purl: p }),
        None => None,
    }
}

/// Parses a generator.
pub fn parse_generator(v: &serde_json::Value) -> (r: Result<Generator, ()>)
    ensures
        match spec_parse_generator(json_rep(*v)) {
            Some(g) => r matches Ok(o) && o.deep_view() == g,
            None => r is Err,
        },
{
    match str_field(v, "purl") {
        Ok(p) => Ok(Generator { purl: p }),
        Err(_) => Err(()),
    }
}

/// What parsing a repository entry yields.
pub open spec fn spec_parse_repository(j: JsonData) -> Option<RepositoryInfoV> {
    match (
        spec_str_field(j, "repoType"@),
        spec_str_field(j, "uri"@),
        spec_opt_elems_field(j, "paths"@, str_elem()),
        spec_opt_str_field(j, "primaryPath"@),
    ) {
        (Some(rt), Some(uri), Some(paths), Some(pp)) => Some(
            RepositoryInfoV { repo_type: rt, uri, paths, primary_path: pp },
        ),
        _ => None,
    }
}

/// Parses a repository entry: `repoType` and `uri` are required.
pub fn parse_repository(v: &serde_json::Value) -> (r: Result<RepositoryInfo, ()>)
    ensures
        match spec_parse_repository(json_rep(*v)) {
            Some(rv) => r matches Ok(o) && o.deep_view() == rv,
            None => r is Err,
        },
{
    let repo_type = match str_field(v, "repoType") {
        Ok(b) => b,
        Err(_) => {
            return Err(());
        },
    };
    let uri = match str_field(v, "uri") {
        Ok(b) => b,
        Err(_) => {
            return Err(());
        },
    };
    let paths = match opt_strings_field(v, "paths") {
        Ok(p) => p,
        Err(_) => {
            return Err(());
        },
    };
    let primary_path = match opt_str_field(v, "primaryPath") {
        Ok(p) => p,
        Err(_) => {
            return Err(());
        },
    };
    Ok(RepositoryInfo { repo_type, uri, paths, primary_path })
}

/// Reads a required attestation-link field.
pub fn link_field(v: &serde_json::Value, key: &str) -> (r: Result<AttestationLink, ()>)
    ensures
        match spec_link_field(json_rep(*v), key@) {
            Some(lv) => r matches Ok(l) && l.deep_view() == lv,
            None => r is Err,
        },
{
    match get_field(v, key) {
        Some(f) => parse_attestation_link(f),
        None => Err(()),
    }
}

/// What parsing a sub-component link yields.
pub open spec fn spec_parse_sub_component(j: JsonData) -> Option<SubComponentLinkV> {
    match (
        spec_str_field(j, "name"@),
        spec_str_field(j, "subComponentPurl"@),
        spec_link_field(j, "componentAttestationLink"@),
    ) {
        (Some(name), Some(purl), Some(link)) => Some(
            SubComponentLinkV {
                name,
                sub_component_purl: purl,
                component_attestation_link: link,
            },
        ),
        _ => None,
    }
}

/// Parses a sub-component link; all of its fields are required.
pub fn parse_sub_component(v: &serde_json::Value) -> (r: Result<SubComponentLink, ()>)
    ensures
        match spec_parse_sub_component(json_rep(*v)) {
            Some(rv) => r matches Ok(o) && o.deep_view() == rv,
            None => r is Err,
        },
{
    let name = match str_field(v, "name") {
        Ok(b) => b,
        Err(_) => {
            return Err(());
        },
    };
    let sub_component_purl = match str_field(v, "subComponentPurl") {
        Ok(b) => b,
        Err(_) => {
            return Err(());
        },
    };
    let component_attestation_link = match link_field(v, "componentAttestationLink") {
        Ok(l) => l,
        Err(_) => {
            return Err(());
        },
    };
    Ok(SubComponentLink { name, sub_component_purl, component_attestation_link })
}

/// What parsing a sub-catalog link yields.
pub open spec fn spec_parse_sub_catalog(j: JsonData) -> Option<SubCatalogLinkV> {
    match (spec_str_field(j, "name"@), spec_link_field(j, "catalogAttestationLink"@)) {
        (Some(name), Some(link)) => Some(
            SubCatalogLinkV { name, catalog_attestation_link: link },
        ),
        _ => None,
    }
}

/// Parses a sub-catalog link; both fields are required.
pub fn parse_sub_catalog(v: &serde_json::Value) -> (r: Result<SubCatalogLink, ()>)
    ensures
        match spec_parse_sub_catalog(json_rep(*v)) {
            Some(rv) => r matches Ok(o) && o.deep_view() == rv,
            None => r is Err,
        },
{
    let name = match str_field(v, "name") {
        Ok(b) => b,
        Err(_) => {
            return Err(());
        },
    };
    let catalog_attestation_link = match link_field(v, "catalogAttestationLink") {
        Ok(l) => l,
        Err(_) => {
            return Err(());
        },
    };
    Ok(SubCatalogLink { name, catalog_attestation_link })
}

/// What parsing a catalog component entry yields.
pub open spec fn spec_parse_catalog_entry(j: JsonData) -> Option<CatalogComponentEntryV> {
    match (
        spec_str_field(j, "name"@),
        spec_opt_str_field(j, "description"@),
        spec_str_field(j, "componentPurl"@),
        spec_link_field(j, "componentAttestationLink"@),
        spec_opt_map_field(j, "labels"@),
    ) {
        (Some(name), Some(desc), Some(purl), Some(link), Some(labels)) => Some(
            CatalogComponentEntryV {
                name,
                description: desc,
                component_purl: purl,
                component_attestation_link: link,
                labels,
            },
        ),
        _ => None,
    }
}

/// Parses a catalog component entry: `name`, `componentPurl` and
/// `componentAttestationLink` are required.
pub fn parse_catalog_entry(v: &serde_json::Value) -> (r: Result<CatalogComponentEntry, ()>)
    ensures
        match spec_parse_catalog_entry(json_rep(*v)) {
            Some(rv) => r matches Ok(o) && o.deep_view() == rv,
            None => r is Err,
        },
{
    let name = match str_field(v, "name") {
        Ok(b) => b,
        Err(_) => {
            return Err(());
        },
    };
    let description = match opt_str_field(v, "description") {
        Ok(b) => b,
        Err(_) => {
            return Err(());
        },
    };
    let component_purl = match str_field(v, "componentPurl") {
        Ok(b) => b,
        Err(_) => {
            return Err(());
        },
    };
    let component_attestation_link = match link_field(v, "componentAttestationLink") {
        Ok(l) => l,
        Err(_) => {
            return Err(());
        },
    };
    let labels = match opt_map_field(v, "labels") {
        Ok(l) => l,
        Err(_) => {
            return Err(());
        },
    };
    Ok(CatalogComponentEntry { name, description, component_purl, component_attestation_link, labels })
}

/// What parsing one statement subject yields; the digest map is
/// required.
pub open spec fn spec_parse_subject(j: JsonData) -> Option<SubjectV> {
    match (
        spec_opt_str_field(j, "name"@),
        spec_opt_str_field(j, "uri"@),
        spec_map_field(j, "digest"@),
    ) {
        (Some(name), Some(uri), Some(dg)) => Some(SubjectV { name, uri, digest: dg }),
        _ => None,
    }
}

/// Parses one statement subject.
pub fn parse_subject(v: &serde_json::Value) -> (r: Result<Subject, ()>)
    ensures
        match spec_parse_subject(json_rep(*v)) {
            Some(rv) => r matches Ok(o) && o.deep_view() == rv,
            None => r is Err,
        },
{
    let name = match opt_str_field(v, "name") {
        Ok(b) => b,
        Err(_) => {
            return Err(());
        },
    };
    let uri = match opt_str_field(v, "uri") {
        Ok(b) => b,
        Err(_) => {
            return Err(());
        },
    };
    let digest = match get_field(v, "digest") {
        Some(f) => if check_str_map(f) {
            clone_value(f)
        } else {
            return Err(());
        },
        None => {
            return Err(());
        },
    };
    Ok(Subject { name, uri, digest })
}

/// Parses every element of an array of  attestation links.
pub fn parse_attestation_links(vs: &Vec<serde_json::Value>) -> (r: Result<Vec<AttestationLink>, ()>)
    ensures
        match spec_parse_elems(
            vs@.map_values(|x: serde_json::Value| json_rep(x)),
            att_link_elem(),
        ) {
            Some(ls) => r matches Ok(o) && o.deep_view() == ls,
            None => r is Err,
        },
{
    let ghost s = vs@.map_values(|x: serde_json::Value| json_rep(x));
    let n = vs.len();
    let mut out: Vec<AttestationLink> = Vec::new();
    let mut i: usize = 0;
    proof {
        assert(s.take(0) =~= Seq::<JsonData>::empty());
        assert(out.deep_view() =~= Seq::<AttestationLinkV>::empty());
    }
    while i < n
        invariant
            n == vs@.len(),
            s == vs@.map_values(|x: serde_json::Value| json_rep(x)),
            i <= n,
            spec_parse_elems(s.take(i as int), att_link_elem()) == Some(out.deep_view()),
        decreases n - i,
    {
        let ghost prev = out.deep_view();
        proof {
            lemma_parse_elems_step(s, att_link_elem(), i as int);
        }
        match parse_attestation_link(&vs[i]) {
            Ok(x) => {
                let ghost xv = x.deep_view();
                out.push(x);
                proof {
                    assert(out.deep_view() =~= prev.push(xv));
                }
            },
            Err(_) => {
                proof {
                    lemma_parse_elems_prefix_none(s, att_link_elem(), i + 1 as int);
                }
                return Err(());
            },
        }
        i += 1;
    }
    proof {
        assert(s.take(n as int) =~= s);
    }
    Ok(out)
}

/// Parses every element of an array of  artifact links.
pub fn parse_artifact_links(vs: &Vec<serde_json::Value>) -> (r: Result<Vec<ArtifactLink>, ()>)
    ensures
        match spec_parse_elems(
            vs@.map_values(|x: serde_json::Value| json_rep(x)),
            art_link_elem(),
        ) {
            Some(ls) => r matches Ok(o) && o.deep_view() == ls,
            None => r is Err,
        },
{
    let ghost s = vs@.map_values(|x: serde_json::Value| json_rep(x));
    let n = vs.len();
    let mut out: Vec<ArtifactLink> = Vec::new();
    let mut i: usize = 0;
    proof {
        assert(s.take(0) =~= Seq::<JsonData>::empty());
        assert(out.deep_view() =~= Seq::<ArtifactLinkV>::empty());
    }
    while i < n
        invariant
            n == vs@.len(),
            s == vs@.map_values(|x: serde_json::Value| json_rep(x)),
            i <= n,
            spec_parse_elems(s.take(i as int), art_link_elem()) == Some(out.deep_view()),
        decreases n - i,
    {
        let ghost prev = out.deep_view();
        proof {
            lemma_parse_elems_step(s, art_link_elem(), i as int);
        }
        match parse_artifact_link(&vs[i]) {
            Ok(x) => {
                let ghost xv = x.deep_view();
                out.push(x);
                proof {
                    assert(out.deep_view() =~= prev.push(xv));
                }
            },
            Err(_) => {
                proof {
                    lemma_parse_elems_prefix_none(s, art_link_elem(), i + 1 as int);
                }
                return Err(());
            },
        }
        i += 1;
    }
    proof {
        assert(s.take(n as int) =~= s);
    }
    Ok(out)
}

/// Parses every element of an array of  strings.
pub fn parse_strings(vs: &Vec<serde_json::Value>) -> (r: Result<Vec<Vec<u8>>, ()>)
    ensures
        match spec_parse_elems(
            vs@.map_values(|x: serde_json::Value| json_rep(x)),
            str_elem(),
        ) {
            Some(ls) => r matches Ok(o) && o.deep_view() == ls,
            None => r is Err,
        },
{
    let ghost s = vs@.map_values(|x: serde_json::Value| json_rep(x));
    let n = vs.len();
    let mut out: Vec<Vec<u8>> = Vec::new();
    let mut i: usize = 0;
    proof {
        assert(s.take(0) =~= Seq::<JsonData>::empty());
        assert(out.deep_view() =~= Seq::<Seq<u8>>::empty());
    }
    while i < n
        invariant
            n == vs@.len(),
            s == vs@.map_values(|x: serde_json::Value| json_rep(x)),
            i <= n,
            spec_parse_elems(s.take(i as int), str_elem()) == Some(out.deep_view()),
        decreases n - i,
    {
        let ghost prev = out.deep_view();
        proof {
            lemma_parse_elems_step(s, str_elem(), i as int);
        }
        match as_str_bytes(&vs[i]) {
            Some(x) => {
                let ghost xv = x.deep_view();
                out.push(x);
                proof {
                    assert(out.deep_view() =~= prev.push(xv));
                }
            },
            None => {
                proof {
                    lemma_parse_elems_prefix_none(s, str_elem(), i + 1 as int);
                }
                return Err(());
            },
        }
        i += 1;
    }
    proof {
        assert(s.take(n as int) =~= s);
    }
    Ok(out)
}

/// Parses every element of an array of  repository entries.
pub fn parse_repositories(vs: &Vec<serde_json::Value>) -> (r: Result<Vec<RepositoryInfo>, ()>)
    ensures
        match spec_parse_elems(
            vs@.map_values(|x: serde_json::Value| json_rep(x)),
            repo_elem(),
        ) {
            Some(ls) => r matches Ok(o) && o.deep_view() == ls,
            None => r is Err,
        },
{
    let ghost s = vs@.map_values(|x: serde_json::Value| json_rep(x));
    let n = vs.len();
    let mut out: Vec<RepositoryInfo> = Vec::new();
    let mut i: usize = 0;
    proof {
        assert(s.take(0) =~= Seq::<JsonData>::empty());
        assert(out.deep_view() =~= Seq::<RepositoryInfoV>::empty());
    }
    while i < n
        invariant
            n == vs@.len(),
            s == vs@.map_values(|x: serde_json::Value| json_rep(x)),
            i <= n,
            spec_parse_elems(s.take(i as int), repo_elem()) == Some(out.deep_view()),
        decreases n - i,
    {
        let ghost prev = out.deep_view();
        proof {
            lemma_parse_elems_step(s, repo_elem(), i as int);
        }
        match parse_repository(&vs[i]) {
            Ok(x) => {
                let ghost xv = x.deep_view();
                out.push(x);
                proof {
                    assert(out.deep_view() =~= prev.push(xv));
                }
            },
            Err(_) => {
                proof {
                    lemma_parse_elems_prefix_none(s, repo_elem(), i + 1 as int);
                }
                return Err(());
            },
        }
        i += 1;
    }
    proof {
        assert(s.take(n as int) =~= s);
    }
    Ok(out)
}

/// Parses every element of an array of  sub-component links.
pub fn parse_sub_components(vs: &Vec<serde_json::Value>) -> (r: Result<Vec<SubComponentLink>, ()>)
    ensures
        match spec_parse_elems(
            vs@.map_values(|x: serde_json::Value| json_rep(x)),
            sub_comp_elem(),
        ) {
            Some(ls) => r matches Ok(o) && o.deep_view() == ls,
            None => r is Err,
        },
{
    let ghost s = vs@.map_values(|x: serde_json::Value| json_rep(x));
    let n = vs.len();
    let mut out: Vec<SubComponentLink> = Vec::new();
    let mut i: usize = 0;
    proof {
        assert(s.take(0) =~= Seq::<JsonData>::empty());
        assert(out.deep_view() =~= Seq::<SubComponentLinkV>::empty());
    }
    while i < n
        invariant
            n == vs@.len(),
            s == vs@.map_values(|x: serde_json::Value| json_rep(x)),
            i <= n,
            spec_parse_elems(s.take(i as int), sub_comp_elem()) == Some(out.deep_view()),
        decreases n - i,
    {
        let ghost prev = out.deep_view();
        proof {
            lemma_parse_elems_step(s, sub_comp_elem(), i as int);
        }
        match parse_sub_component(&vs[i]) {
            Ok(x) => {
                let ghost xv = x.deep_view();
                out.push(x);
                proof {
                    assert(out.deep_view() =~= prev.push(xv));
                }
            },
            Err(_) => {
                proof {
                    lemma_parse_elems_prefix_none(s, sub_comp_elem(), i + 1 as int);
                }
                return Err(());
            },
        }
        i += 1;
    }
    proof {
        assert(s.take(n as int) =~= s);
    }
    Ok(out)
}

/// Parses every element of an array of  sub-catalog links.
pub fn parse_sub_catalogs(vs: &Vec<serde_json::Value>) -> (r: Result<Vec<SubCatalogLink>, ()>)
    ensures
        match spec_parse_elems(
            vs@.map_values(|x: serde_json::Value| json_rep(x)),
            sub_cat_elem(),
        ) {
            Some(ls) => r matches Ok(o) && o.deep_view() == ls,
            None => r is Err,
        },
{
    let ghost s = vs@.map_values(|x: serde_json::Value| json_rep(x));
    let n = vs.len();
    let mut out: Vec<SubCatalogLink> = Vec::new();
    let mut i: usize = 0;
    proof {
        assert(s.take(0) =~= Seq::<JsonData>::empty());
        assert(out.deep_view() =~= Seq::<SubCatalogLinkV>::empty());
    }
    while i < n
        invariant
            n == vs@.len(),
            s == vs@.map_values(|x: serde_json::Value| json_rep(x)),
            i <= n,
            spec_parse_elems(s.take(i as int), sub_cat_elem()) == Some(out.deep_view()),
        decreases n - i,
    {
        let ghost prev = out.deep_view();
        proof {
            lemma_parse_elems_step(s, sub_cat_elem(), i as int);
        }
        match parse_sub_catalog(&vs[i]) {
            Ok(x) => {
                let ghost xv = x.deep_view();
                out.push(x);
                proof {
                    assert(out.deep_view() =~= prev.push(xv));
                }
            },
            Err(_) => {
                proof {
                    lemma_parse_elems_prefix_none(s, sub_cat_elem(), i + 1 as int);
                }
                return Err(());
            },
        }
        i += 1;
    }
    proof {
        assert(s.take(n as int) =~= s);
    }
    Ok(out)
}

/// Parses every element of an array of  catalog component entries.
pub fn parse_catalog_entries(vs: &Vec<serde_json::Value>) -> (r: Result<Vec<CatalogComponentEntry>, ()>)
    ensures
        match spec_parse_elems(
            vs@.map_values(|x: serde_json::Value| json_rep(x)),
            entry_elem(),
        ) {
            Some(ls) => r matches Ok(o) && o.deep_view() == ls,
            None => r is Err,
        },
{
    let ghost s = vs@.map_values(|x: serde_json::Value| json_rep(x));
    let n = vs.len();
    let mut out: Vec<CatalogComponentEntry> = Vec::new();
    let mut i: usize = 0;
    proof {
        assert(s.take(0) =~= Seq::<JsonData>::empty());
        assert(out.deep_view() =~= Seq::<CatalogComponentEntryV>::empty());
    }
    while i < n
        invariant
            n == vs@.len(),
            s == vs@.map_values(|x: serde_json::Value| json_rep(x)),
            i <= n,
            spec_parse_elems(s.take(i as int), entry_elem()) == Some(out.deep_view()),
        decreases n - i,
    {
        let ghost prev = out.deep_view();
        proof {
            lemma_parse_elems_step(s, entry_elem(), i as int);
        }
        match parse_catalog_entry(&vs[i]) {
            Ok(x) => {
                let ghost xv = x.deep_view();
                out.push(x);
                proof {
                    assert(out.deep_view() =~= prev.push(xv));
                }
            },
            Err(_) => {
                proof {
                    lemma_parse_elems_prefix_none(s, entry_elem(), i + 1 as int);
                }
                return Err(());
            },
        }
        i += 1;
    }
    proof {
        assert(s.take(n as int) =~= s);
    }
    Ok(out)
}

/// Parses every element of an array of  statement subjects.
pub fn parse_subjects(vs: &Vec<serde_json::Value>) -> (r: Result<Vec<Subject>, ()>)
    ensures
        match spec_parse_elems(
            vs@.map_values(|x: serde_json::Value| json_rep(x)),
            subject_elem(),
        ) {
            Some(ls) => r matches Ok(o) && o.deep_view() == ls,
            None => r is Err,
        },
{
    let ghost s = vs@.map_values(|x: serde_json::Value| json_rep(x));
    let n = vs.len();
    let mut out: Vec<Subject> = Vec::new();
    let mut i: usize = 0;
    proof {
        assert(s.take(0) =~= Seq::<JsonData>::empty());
        assert(out.deep_view() =~= Seq::<SubjectV>::empty());
    }
    while i < n
        invariant
            n == vs@.len(),
            s == vs@.map_values(|x: serde_json::Value| json_rep(x)),
            i <= n,
            spec_parse_elems(s.take(i as int), subject_elem()) == Some(out.deep_view()),
        decreases n - i,
    {
        let ghost prev = out.deep_view();
        proof {
            lemma_parse_elems_step(s, subject_elem(), i as int);
        }
        match parse_subject(&vs[i]) {
            Ok(x) => {
                let ghost xv = x.deep_view();
                out.push(x);
                proof {
                    assert(out.deep_view() =~= prev.push(xv));
                }
            },
            Err(_) => {
                proof {
                    lemma_parse_elems_prefix_none(s, subject_elem(), i + 1 as int);
                }
                return Err(());
            },
        }
        i += 1;
    }
    proof {
        assert(s.take(n as int) =~= s);
    }
    Ok(out)
}

/// The element parser of repository arrays.
pub open spec fn repo_elem() -> spec_fn(JsonData) -> Option<RepositoryInfoV> {
    |j: JsonData| spec_parse_repository(j)
}

/// The element parser of sub-component arrays.
pub open spec fn sub_comp_elem() -> spec_fn(JsonData) -> Option<SubComponentLinkV> {
    |j: JsonData| spec_parse_sub_component(j)
}

/// The element parser of sub-catalog arrays.
pub open spec fn sub_cat_elem() -> spec_fn(JsonData) -> Option<SubCatalogLinkV> {
    |j: JsonData| spec_parse_sub_catalog(j)
}

/// The element parser of catalog component entry arrays.
pub open spec fn entry_elem() -> spec_fn(JsonData) -> Option<CatalogComponentEntryV> {
    |j: JsonData| spec_parse_catalog_entry(j)
}

/// The element parser of subject arrays.
pub open spec fn subject_elem() -> spec_fn(JsonData) -> Option<SubjectV> {
    |j: JsonData| spec_parse_subject(j)
}

/// Reads an optional string-array field; a null field counts as absent.
pub fn opt_strings_field(v: &serde_json::Value, key: &str) -> (r: Result<Option<Vec<Vec<u8>>>, ()>)
    ensures
        match spec_opt_elems_field(json_rep(*v), key@, str_elem()) {
            Some(Some(ss)) => r matches Ok(Some(o)) && o.deep_view() == ss,
            Some(None) => r matches Ok(o) && o is None,
            None => r is Err,
        },
{
    match get_field(v, key) {
        None => Ok(None),
        Some(f) => if is_null(f) {
            Ok(None)
        } else {
            match as_array(f) {
                Some(a) => match parse_strings(a) {
                    Ok(o) => Ok(Some(o)),
                    Err(_) => Err(()),
                },
                None => Err(()),
            }
        },
    }
}

/// Reads an optional artifact-link-array field; a null field counts as absent.
pub fn opt_artifact_links_field(v: &serde_json::Value, key: &str) -> (r: Result<Option<Vec<ArtifactLink>>, ()>)
    ensures
        match spec_opt_elems_field(json_rep(*v), key@, art_link_elem()) {
            Some(Some(ss)) => r matches Ok(Some(o)) && o.deep_view() == ss,
            Some(None) => r matches Ok(o) && o is None,
            None => r is Err,
        },
{
    match get_field(v, key) {
        None => Ok(None),
        Some(f) => if is_null(f) {
            Ok(None)
        } else {
            match as_array(f) {
                Some(a) => match parse_artifact_links(a) {
                    Ok(o) => Ok(Some(o)),
                    Err(_) => Err(()),
                },
                None => Err(()),
            }
        },
    }
}

/// Reads an optional sub-catalog-array field; a null field counts as absent.
pub fn opt_sub_catalogs_field(v: &serde_json::Value, key: &str) -> (r: Result<Option<Vec<SubCatalogLink>>, ()>)
    ensures
        match spec_opt_elems_field(json_rep(*v), key@, sub_cat_elem()) {
            Some(Some(ss)) => r matches Ok(Some(o)) && o.deep_view() == ss,
            Some(None) => r matches Ok(o) && o is None,
            None => r is Err,
        },
{
    match get_field(v, key) {
        None => Ok(None),
        Some(f) => if is_null(f) {
            Ok(None)
        } else {
            match as_array(f) {
                Some(a) => match parse_sub_catalogs(a) {
                    Ok(o) => Ok(Some(o)),
                    Err(_) => Err(()),
                },
                None => Err(()),
            }
        },
    }
}

/// Reads an optional sub-component-array field; a null field counts as absent.
pub fn opt_sub_components_field(v: &serde_json::Value, key: &str) -> (r: Result<Option<Vec<SubComponentLink>>, ()>)
    ensures
        match spec_opt_elems_field(json_rep(*v), key@, sub_comp_elem()) {
            Some(Some(ss)) => r matches Ok(Some(o)) && o.deep_view() == ss,
            Some(None) => r matches Ok(o) && o is None,
            None => r is Err,
        },
{
    match get_field(v, key) {
        None => Ok(None),
        Some(f) => if is_null(f) {
            Ok(None)
        } else {
            match as_array(f) {
                Some(a) => match parse_sub_components(a) {
                    Ok(o) => Ok(Some(o)),
                    Err(_) => Err(()),
                },
                None => Err(()),
            }
        },
    }
}

/// Reads a required component-entry-array field.
pub fn entries_field(v: &serde_json::Value, key: &str) -> (r: Result<Vec<CatalogComponentEntry>, ()>)
    ensures
        match spec_elems_field(json_rep(*v), key@, entry_elem()) {
            Some(ss) => r matches Ok(o) && o.deep_view() == ss,
            None => r is Err,
        },
{
    match get_field(v, key) {
        Some(f) => match as_array(f) {
            Some(a) => parse_catalog_entries(a),
            None => Err(()),
        },
        None => Err(()),
    }
}

/// Reads a required repository-array field.
pub fn repositories_field(v: &serde_json::Value, key: &str) -> (r: Result<Vec<RepositoryInfo>, ()>)
    ensures
        match spec_elems_field(json_rep(*v), key@, repo_elem()) {
            Some(ss) => r matches Ok(o) && o.deep_view() == ss,
            None => r is Err,
        },
{
    match get_field(v, key) {
        Some(f) => match as_array(f) {
            Some(a) => parse_repositories(a),
            None => Err(()),
        },
        None => Err(()),
    }
}

/// Reads a required attestation-link-array field.
pub fn att_links_field(v: &serde_json::Value, key: &str) -> (r: Result<Vec<AttestationLink>, ()>)
    ensures
        match spec_elems_field(json_rep(*v), key@, att_link_elem()) {
            Some(ss) => r matches Ok(o) && o.deep_view() == ss,
            None => r is Err,
        },
{
    match get_field(v, key) {
        Some(f) => match as_array(f) {
            Some(a) => parse_attestation_links(a),
            None => Err(()),
        },
        None => Err(()),
    }
}

/// Reads a required subject-array field.
pub fn subjects_field(v: &serde_json::Value, key: &str) -> (r: Result<Vec<Subject>, ()>)
    ensures
        match spec_elems_field(json_rep(*v), key@, subject_elem()) {
            Some(ss) => r matches Ok(o) && o.deep_view() == ss,
            None => r is Err,
        },
{
    match get_field(v, key) {
        Some(f) => match as_array(f) {
            Some(a) => parse_subjects(a),
            None => Err(()),
        },
        None => Err(()),
    }
}

/// Reads an optional generator field; a null field counts as absent.
pub fn opt_generator_field(v: &serde_json::Value, key: &str) -> (r: Result<Option<Generator>, ()>)
    ensures
        match spec_opt_gen_field(json_rep(*v), key@) {
            Some(Some(g)) => r matches Ok(Some(o)) && o.deep_view() == g,
            Some(None) => r matches Ok(o) && o is None,
            None => r is Err,
        },
{
    match get_field(v, key) {
        None => Ok(None),
        Some(f) => if is_null(f) {
            Ok(None)
        } else {
            match parse_generator(f) {
                Ok(g) => Ok(Some(g)),
                Err(_) => Err(()),
            }
        },
    }
}

/// What parsing a catalog predicate yields: `timestamp` and
/// `components` are required; `generator`, `subCatalogs` and
/// `metadataLinks` are optional.
pub open spec fn spec_parse_catalog(j: JsonData) -> Option<ChainsightsCatalogPredicateV> {
    match (
        spec_str_field(j, "timestamp"@),
        spec_opt_gen_field(j, "generator"@),
        spec_elems_field(j, "components"@, entry_elem()),
        spec_opt_elems_field(j, "subCatalogs"@, sub_cat_elem()),
        spec_opt_elems_field(j, "metadataLinks"@, art_link_elem()),
    ) {
        (Some(ts), Some(gen), Some(comps), Some(subs), Some(mls)) => Some(
            ChainsightsCatalogPredicateV {
                generator: gen,
                timestamp: ts,
                components: comps,
                sub_catalogs: subs,
                metadata_links: mls,
            },
        ),
        _ => None,
    }
}

/// Parses a catalog predicate.
pub fn parse_catalog(v: &serde_json::Value) -> (r: Result<ChainsightsCatalogPredicate, ()>)
    ensures
        match spec_parse_catalog(json_rep(*v)) {
            Some(cv) => r matches Ok(o) && o.deep_view() == cv,
            None => r is Err,
        },
{
    let timestamp = match str_field(v, "timestamp") {
        Ok(b) => b,
        Err(_) => {
            return Err(());
        },
    };
    let generator = match opt_generator_field(v, "generator") {
        Ok(g) => g,
        Err(_) => {
            return Err(());
        },
    };
    let components = match entries_field(v, "components") {
        Ok(c) => c,
        Err(_) => {
            return Err(());
        },
    };
    let sub_catalogs = match opt_sub_catalogs_field(v, "subCatalogs") {
        Ok(sc) => sc,
        Err(_) => {
            return Err(());
        },
    };
    let metadata_links = match opt_artifact_links_field(v, "metadataLinks") {
        Ok(ml) => ml,
        Err(_) => {
            return Err(());
        },
    };
    Ok(ChainsightsCatalogPredicate { generator, timestamp, components, sub_catalogs, metadata_links })
}

/// What parsing a component predicate yields: `timestamp`, `purl`,
/// `name`, `repositories` and `releaseAttestations` are required; the
/// rest is optional.
pub open spec fn spec_parse_component(j: JsonData) -> Option<ChainsightsComponentPredicateV> {
    match (
        spec_str_field(j, "timestamp"@),
        spec_opt_gen_field(j, "generator"@),
        spec_str_field(j, "purl"@),
        spec_str_field(j, "name"@),
        spec_opt_str_field(j, "description"@),
    ) {
        (Some(ts), Some(gen), Some(purl), Some(name), Some(desc)) => match (
            spec_opt_elems_field(j, "aliases"@, str_elem()),
            spec_opt_map_field(j, "labels"@),
            spec_elems_field(j, "repositories"@, repo_elem()),
            spec_opt_elems_field(j, "subComponents"@, sub_comp_elem()),
            spec_elems_field(j, "releaseAttestations"@, att_link_elem()),
            spec_opt_elems_field(j, "metadataLinks"@, art_link_elem()),
        ) {
            (Some(al), Some(lb), Some(repos), Some(sc), Some(ra), Some(ml)) => Some(
                ChainsightsComponentPredicateV {
                    generator: gen,
                    timestamp: ts,
                    purl,
                    name,
                    description: desc,
                    aliases: al,
                    labels: lb,
                    repositories: repos,
                    sub_components: sc,
                    release_attestations: ra,
                    metadata_links: ml,
                },
            ),
            _ => None,
        },
        _ => None,
    }
}

/// Parses a component predicate.
pub fn parse_component(v: &serde_json::Value) -> (r: Result<ChainsightsComponentPredicate, ()>)
    ensures
        match spec_parse_component(json_rep(*v)) {
            Some(cv) => r matches Ok(o) && o.deep_view() == cv,
            None => r is Err,
        },
{
    let timestamp = match str_field(v, "timestamp") {
        Ok(b) => b,
        Err(_) => {
            return Err(());
        },
    };
    let generator = match opt_generator_field(v, "generator") {
        Ok(g) => g,
        Err(_) => {
            return Err(());
        },
    };
    let purl = match str_field(v, "purl") {
        Ok(b) => b,
        Err(_) => {
            return Err(());
        },
    };
    let name = match str_field(v, "name") {
        Ok(b) => b,
        Err(_) => {
            return Err(());
        },
    };
    let description = match opt_str_field(v, "description") {
        Ok(b) => b,
        Err(_) => {
            return Err(());
        },
    };
    let aliases = match opt_strings_field(v, "aliases") {
        Ok(a) => a,
        Err(_) => {
            return Err(());
        },
    };
    let labels = match opt_map_field(v, "labels") {
        Ok(l) => l,
        Err(_) => {
            return Err(());
        },
    };
    let repositories = match repositories_field(v, "repositories") {
        Ok(rs) => rs,
        Err(_) => {
            return Err(());
        },
    };
    let sub_components = match opt_sub_components_field(v, "subComponents") {
        Ok(sc) => sc,
        Err(_) => {
            return Err(());
        },
    };
    let release_attestations = match att_links_field(v, "releaseAttestations") {
        Ok(ra) => ra,
        Err(_) => {
            return Err(());
        },
    };
    let metadata_links = match opt_artifact_links_field(v, "metadataLinks") {
        Ok(ml) => ml,
        Err(_) => {
            return Err(());
        },
    };
    Ok(ChainsightsComponentPredicate {
        generator,
        timestamp,
        purl,
        name,
        description,
        aliases,
        labels,
        repositories,
        sub_components,
        release_attestations,
        metadata_links,
    })
}

/// What parsing a release predicate yields: `timestamp`, `purl` and
/// `name` are required; the rest is optional.
pub open spec fn spec_parse_release(j: JsonData) -> Option<ChainsightsReleasePredicateV> {
    match (
        spec_str_field(j, "timestamp"@),
        spec_opt_gen_field(j, "generator"@),
        spec_str_field(j, "purl"@),
        spec_str_field(j, "name"@),
    ) {
        (Some(ts), Some(gen), Some(purl), Some(name)) => match (
            spec_opt_str_field(j, "releaseDate"@),
            spec_opt_str_field(j, "releaseNotesUri"@),
            spec_opt_str_field(j, "lifecyclePhase"@),
            spec_opt_elems_field(j, "metadataLinks"@, art_link_elem()),
            spec_opt_elems_field(j, "artifacts"@, art_link_elem()),
        ) {
            (Some(rd), Some(rn), Some(lp), Some(ml), Some(ar)) => Some(
                ChainsightsReleasePredicateV {
                    generator: gen,
                    timestamp: ts,
                    purl,
                    name,
                    release_date: rd,
                    release_notes_uri: rn,
                    lifecycle_phase: lp,
                    metadata_links: ml,
                    artifacts: ar,
                },
            ),
            _ => None,
        },
        _ => None,
    }
}

/// Parses a release predicate.
pub fn parse_release(v: &serde_json::Value) -> (r: Result<ChainsightsReleasePredicate, ()>)
    ensures
        match spec_parse_release(json_rep(*v)) {
            Some(cv) => r matches Ok(o) && o.deep_view() == cv,
            None => r is Err,
        },
{
    let timestamp = match str_field(v, "timestamp") {
        Ok(b) => b,
        Err(_) => {
            return Err(());
        },
    };
    let generator = match opt_generator_field(v, "generator") {
        Ok(g) => g,
        Err(_) => {
            return Err(());
        },
    };
    let purl = match str_field(v, "purl") {
        Ok(b) => b,
        Err(_) => {
            return Err(());
        },
    };
    let name = match str_field(v, "name") {
        Ok(b) => b,
        Err(_) => {
            return Err(());
        },
    };
    let release_date = match opt_str_field(v, "releaseDate") {
        Ok(b) => b,
        Err(_) => {
            return Err(());
        },
    };
    let release_notes_uri = match opt_str_field(v, "releaseNotesUri") {
        Ok(b) => b,
        Err(_) => {
            return Err(());
        },
    };
    let lifecycle_phase = match opt_str_field(v, "lifecyclePhase") {
        Ok(b) => b,
        Err(_) => {
            return Err(());
        },
    };
    let metadata_links = match opt_artifact_links_field(v, "metadataLinks") {
        Ok(ml) => ml,
        Err(_) => {
            return Err(());
        },
    };
    let artifacts = match opt_artifact_links_field(v, "artifacts") {
        Ok(a) => a,
        Err(_) => {
            return Err(());
        },
    };
    Ok(ChainsightsReleasePredicate {
        generator,
        timestamp,
        purl,
        name,
        release_date,
        release_notes_uri,
        lifecycle_phase,
        metadata_links,
        artifacts,
    })
}

/// What parsing an in-toto statement from payload bytes yields:
/// `_type`, `subject` and `predicateType` are required, and the
/// `predicate` value must be present; it is kept verbatim.
pub open spec fn spec_parse_statement(b: Seq<u8>) -> Option<InTotoStatementV> {
    match json_of(b) {
        None => None,
        Some(j) => match (
            spec_str_field(j, "_type"@),
            spec_elems_field(j, "subject"@, subject_elem()),
            spec_str_field(j, "predicateType"@),
            spec_obj_field(j, "predicate"@),
        ) {
            (Some(st), Some(subs), Some(pt), Some(pred)) => Some(
                InTotoStatementV {
                    statement_type: st,
                    subject: subs,
                    predicate_type: pt,
                    predicate: pred,
                },
            ),
            _ => None,
        },
    }
}

/// Parses the verified payload bytes as an in-toto statement.
pub fn parse_statement(payload: &[u8]) -> (r: Result<InTotoStatement, VerifyError>)
    ensures
        match spec_parse_statement(payload@) {
            Some(sv) => r matches Ok(s) && s.deep_view() == sv,
            None => r == Err::<InTotoStatement, VerifyError>(VerifyError::MalformedStatement),
        },
{
    let j = match parse_json(payload) {
        Some(v) => v,
        None => {
            return Err(VerifyError::MalformedStatement);
        },
    };
    let statement_type = match str_field(&j, "_type") {
        Ok(b) => b,
        Err(_) => {
            return Err(VerifyError::MalformedStatement);
        },
    };
    let subject = match subjects_field(&j, "subject") {
        Ok(s) => s,
        Err(_) => {
            return Err(VerifyError::MalformedStatement);
        },
    };
    let predicate_type = match str_field(&j, "predicateType") {
        Ok(b) => b,
        Err(_) => {
            return Err(VerifyError::MalformedStatement);
        },
    };
    let predicate = match get_field(&j, "predicate") {
        Some(p) => clone_value(p),
        None => {
            return Err(VerifyError::MalformedStatement);
        },
    };
    Ok(InTotoStatement { statement_type, subject, predicate_type, predicate })
}

/// What dispatching on the declared predicate type yields: one of the
/// three known predicate shapes, parsed strictly, or the value carried
/// verbatim under `Unknown` where the type is not recognized. `None`
/// only where a recognized type's payload does not fit its shape.
pub open spec fn spec_parse_predicate(ptype: Seq<u8>, pred: JsonData) -> Option<
    ChainsightsPredicateV,
> {
    if ptype == spec_catalog_v1() {
        match spec_parse_catalog(pred) {
            Some(c) => Some(ChainsightsPredicateV::Catalog(c)),
            None => None,
        }
    } else if ptype == spec_component_v1() {
        match spec_parse_component(pred) {
            Some(c) => Some(ChainsightsPredicateV::Component(c)),
            None => None,
        }
    } else if ptype == spec_release_v1() {
        match spec_parse_release(pred) {
            Some(c) => Some(ChainsightsPredicateV::Release(c)),
            None => None,
        }
    } else {
        Some(ChainsightsPredicateV::Unknown { predicate_type: ptype, predicate_value: pred })
    }
}

/// Dispatches a statement's predicate on its declared type.
pub fn parse_predicate(statement: &InTotoStatement) -> (r: Result<
    ChainsightsPredicate,
    VerifyError,
>)
    ensures
        match spec_parse_predicate(statement.predicate_type@, json_rep(statement.predicate)) {
            Some(pv) => r matches Ok(p) && p.deep_view() == pv,
            None => r == Err::<ChainsightsPredicate, VerifyError>(VerifyError::MalformedPredicate),
        },
{
    let cat = lit_catalog_v1();
    let comp = lit_component_v1();
    let rel = lit_release_v1();
    if bytes_eq(statement.predicate_type.as_slice(), cat.as_slice()) {
        match parse_catalog(&statement.predicate) {
            Ok(c) => Ok(ChainsightsPredicate::Catalog(c)),
            Err(_) => Err(VerifyError::MalformedPredicate),
        }
    } else if bytes_eq(statement.predicate_type.as_slice(), comp.as_slice()) {
        match parse_component(&statement.predicate) {
            Ok(c) => Ok(ChainsightsPredicate::Component(c)),
            Err(_) => Err(VerifyError::MalformedPredicate),
        }
    } else if bytes_eq(statement.predicate_type.as_slice(), rel.as_slice()) {
        match parse_release(&statement.predicate) {
            Ok(c) => Ok(ChainsightsPredicate::Release(c)),
            Err(_) => Err(VerifyError::MalformedPredicate),
        }
    } else {
        Ok(ChainsightsPredicate::Unknown {
            predicate_type: clone_bytes(&statement.predicate_type),
            predicate_value: clone_value(&statement.predicate),
        })
    }
}

} // verus!
