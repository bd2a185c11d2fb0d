use vstd::prelude::*;

verus! {

/// The bytes of `https://chainsights.rest/catalog/v1`: the predicate type URI of a catalog.
pub open spec fn spec_catalog_v1() -> Seq<u8> {
    seq![104u8, 116u8, 116u8, 112u8, 115u8, 58u8, 47u8, 47u8, 99u8, 104u8, 97u8, 105u8, 110u8, 115u8, 105u8, 103u8, 104u8, 116u8, 115u8, 46u8, 114u8, 101u8, 115u8, 116u8, 47u8, 99u8, 97u8, 116u8, 97u8, 108u8, 111u8, 103u8, 47u8, 118u8, 49u8]
}

/// The bytes of `https://chainsights.rest/catalog/v1`.
pub fn lit_catalog_v1() -> (r: Vec<u8>)
    ensures
        r@ == spec_catalog_v1(),
{
    let a: [u8; 35] = [104, 116, 116, 112, 115, 58, 47, 47, 99, 104, 97, 105, 110, 115, 105, 103, 104, 116, 115, 46, 114, 101, 115, 116, 47, 99, 97, 116, 97, 108, 111, 103, 47, 118, 49];
    assert(a@ =~= spec_catalog_v1());
    vstd::slice::slice_to_vec(a.as_slice())
}

/// The bytes of `https://chainsights.rest/component/v1`: the predicate type URI of a component.
pub open spec fn spec_component_v1() -> Seq<u8> {
    seq![104u8, 116u8, 116u8, 112u8, 115u8, 58u8, 47u8, 47u8, 99u8, 104u8, 97u8, 105u8, 110u8, 115u8, 105u8, 103u8, 104u8, 116u8, 115u8, 46u8, 114u8, 101u8, 115u8, 116u8, 47u8, 99u8, 111u8, 109u8, 112u8, 111u8, 110u8, 101u8, 110u8, 116u8, 47u8, 118u8, 49u8]
}

/// The bytes of `https://chainsights.rest/component/v1`.
pub fn lit_component_v1() -> (r: Vec<u8>)
    ensures
        r@ == spec_component_v1(),
{
    let a: [u8; 37] = [104, 116, 116, 112, 115, 58, 47, 47, 99, 104, 97, 105, 110, 115, 105, 103, 104, 116, 115, 46, 114, 101, 115, 116, 47, 99, 111, 109, 112, 111, 110, 101, 110, 116, 47, 118, 49];
    assert(a@ =~= spec_component_v1());
    vstd::slice::slice_to_vec(a.as_slice())
}

/// The bytes of `https://chainsights.rest/release/v1`: the predicate type URI of a release.
pub open spec fn spec_release_v1() -> Seq<u8> {
    seq![104u8, 116u8, 116u8, 112u8, 115u8, 58u8, 47u8, 47u8, 99u8, 104u8, 97u8, 105u8, 110u8, 115u8, 105u8, 103u8, 104u8, 116u8, 115u8, 46u8, 114u8, 101u8, 115u8, 116u8, 47u8, 114u8, 101u8, 108u8, 101u8, 97u8, 115u8, 101u8, 47u8, 118u8, 49u8]
}

/// The bytes of `https://chainsights.rest/release/v1`.
pub fn lit_release_v1() -> (r: Vec<u8>)
    ensures
        r@ == spec_release_v1(),
{
    let a: [u8; 35] = [104, 116, 116, 112, 115, 58, 47, 47, 99, 104, 97, 105, 110, 115, 105, 103, 104, 116, 115, 46, 114, 101, 115, 116, 47, 114, 101, 108, 101, 97, 115, 101, 47, 118, 49];
    assert(a@ =~= spec_release_v1());
    vstd::slice::slice_to_vec(a.as_slice())
}

/// The bytes of `chainsights`: the PURL type this library accepts.
pub open spec fn spec_chainsights() -> Seq<u8> {
    seq![99u8, 104u8, 97u8, 105u8, 110u8, 115u8, 105u8, 103u8, 104u8, 116u8, 115u8]
}

/// The bytes of `chainsights`.
pub fn lit_chainsights() -> (r: Vec<u8>)
    ensures
        r@ == spec_chainsights(),
{
    let a: [u8; 11] = [99, 104, 97, 105, 110, 115, 105, 103, 104, 116, 115];
    assert(a@ =~= spec_chainsights());
    vstd::slice::slice_to_vec(a.as_slice())
}

/// The bytes of `uri=`: the discovery token prefix for the root URI.
pub open spec fn spec_uri_prefix() -> Seq<u8> {
    seq![117u8, 114u8, 105u8, 61u8]
}

/// The bytes of `uri=`.
pub fn lit_uri_prefix() -> (r: Vec<u8>)
    ensures
        r@ == spec_uri_prefix(),
{
    let a: [u8; 4] = [117, 114, 105, 61];
    assert(a@ =~= spec_uri_prefix());
    vstd::slice::slice_to_vec(a.as_slice())
}

/// The bytes of `identity=`: the discovery token prefix for the signer identity.
pub open spec fn spec_identity_prefix() -> Seq<u8> {
    seq![105u8, 100u8, 101u8, 110u8, 116u8, 105u8, 116u8, 121u8, 61u8]
}

/// The bytes of `identity=`.
pub fn lit_identity_prefix() -> (r: Vec<u8>)
    ensures
        r@ == spec_identity_prefix(),
{
    let a: [u8; 9] = [105, 100, 101, 110, 116, 105, 116, 121, 61];
    assert(a@ =~= spec_identity_prefix());
    vstd::slice::slice_to_vec(a.as_slice())
}

/// The bytes of `Cycle detected: URI '`: the opening of a cycle error message.
pub open spec fn spec_cycle_pre() -> Seq<u8> {
    seq![67u8, 121u8, 99u8, 108u8, 101u8, 32u8, 100u8, 101u8, 116u8, 101u8, 99u8, 116u8, 101u8, 100u8, 58u8, 32u8, 85u8, 82u8, 73u8, 32u8, 39u8]
}

/// The bytes of `Cycle detected: URI '`.
pub fn lit_cycle_pre() -> (r: Vec<u8>)
    ensures
        r@ == spec_cycle_pre(),
{
    let a: [u8; 21] = [67, 121, 99, 108, 101, 32, 100, 101, 116, 101, 99, 116, 101, 100, 58, 32, 85, 82, 73, 32, 39];
    assert(a@ =~= spec_cycle_pre());
    vstd::slice::slice_to_vec(a.as_slice())
}

/// The bytes of `' already visited`: the close of a cycle error message.
pub open spec fn spec_cycle_post() -> Seq<u8> {
    seq![39u8, 32u8, 97u8, 108u8, 114u8, 101u8, 97u8, 100u8, 121u8, 32u8, 118u8, 105u8, 115u8, 105u8, 116u8, 101u8, 100u8]
}

/// The bytes of `' already visited`.
pub fn lit_cycle_post() -> (r: Vec<u8>)
    ensures
        r@ == spec_cycle_post(),
{
    let a: [u8; 17] = [39, 32, 97, 108, 114, 101, 97, 100, 121, 32, 118, 105, 115, 105, 116, 101, 100];
    assert(a@ =~= spec_cycle_post());
    vstd::slice::slice_to_vec(a.as_slice())
}

/// The bytes of `Maximum traversal depth (`: the opening of a depth error message.
pub open spec fn spec_depth_pre() -> Seq<u8> {
    seq![77u8, 97u8, 120u8, 105u8, 109u8, 117u8, 109u8, 32u8, 116u8, 114u8, 97u8, 118u8, 101u8, 114u8, 115u8, 97u8, 108u8, 32u8, 100u8, 101u8, 112u8, 116u8, 104u8, 32u8, 40u8]
}

/// The bytes of `Maximum traversal depth (`.
pub fn lit_depth_pre() -> (r: Vec<u8>)
    ensures
        r@ == spec_depth_pre(),
{
    let a: [u8; 25] = [77, 97, 120, 105, 109, 117, 109, 32, 116, 114, 97, 118, 101, 114, 115, 97, 108, 32, 100, 101, 112, 116, 104, 32, 40];
    assert(a@ =~= spec_depth_pre());
    vstd::slice::slice_to_vec(a.as_slice())
}

/// The bytes of `) would be exceeded at URI '`: the middle of a depth error message.
pub open spec fn spec_depth_mid() -> Seq<u8> {
    seq![41u8, 32u8, 119u8, 111u8, 117u8, 108u8, 100u8, 32u8, 98u8, 101u8, 32u8, 101u8, 120u8, 99u8, 101u8, 101u8, 100u8, 101u8, 100u8, 32u8, 97u8, 116u8, 32u8, 85u8, 82u8, 73u8, 32u8, 39u8]
}

/// The bytes of `) would be exceeded at URI '`.
pub fn lit_depth_mid() -> (r: Vec<u8>)
    ensures
        r@ == spec_depth_mid(),
{
    let a: [u8; 28] = [41, 32, 119, 111, 117, 108, 100, 32, 98, 101, 32, 101, 120, 99, 101, 101, 100, 101, 100, 32, 97, 116, 32, 85, 82, 73, 32, 39];
    assert(a@ =~= spec_depth_mid());
    vstd::slice::slice_to_vec(a.as_slice())
}

/// The bytes of `'`: a closing quote.
pub open spec fn spec_quote_end() -> Seq<u8> {
    seq![39u8]
}

/// The bytes of `'`.
pub fn lit_quote_end() -> (r: Vec<u8>)
    ensures
        r@ == spec_quote_end(),
{
    let a: [u8; 1] = [39];
    assert(a@ =~= spec_quote_end());
    vstd::slice::slice_to_vec(a.as_slice())
}

/// The bytes of `Expected Catalog predicate at root URI '`: the opening of the root-kind error message.
pub open spec fn spec_root_expected_pre() -> Seq<u8> {
    seq![69u8, 120u8, 112u8, 101u8, 99u8, 116u8, 101u8, 100u8, 32u8, 67u8, 97u8, 116u8, 97u8, 108u8, 111u8, 103u8, 32u8, 112u8, 114u8, 101u8, 100u8, 105u8, 99u8, 97u8, 116u8, 101u8, 32u8, 97u8, 116u8, 32u8, 114u8, 111u8, 111u8, 116u8, 32u8, 85u8, 82u8, 73u8, 32u8, 39u8]
}

/// The bytes of `Expected Catalog predicate at root URI '`.
pub fn lit_root_expected_pre() -> (r: Vec<u8>)
    ensures
        r@ == spec_root_expected_pre(),
{
    let a: [u8; 40] = [69, 120, 112, 101, 99, 116, 101, 100, 32, 67, 97, 116, 97, 108, 111, 103, 32, 112, 114, 101, 100, 105, 99, 97, 116, 101, 32, 97, 116, 32, 114, 111, 111, 116, 32, 85, 82, 73, 32, 39];
    assert(a@ =~= spec_root_expected_pre());
    vstd::slice::slice_to_vec(a.as_slice())
}

/// The bytes of `', but found `: the middle of the root-kind error message.
pub open spec fn spec_root_expected_mid() -> Seq<u8> {
    seq![39u8, 44u8, 32u8, 98u8, 117u8, 116u8, 32u8, 102u8, 111u8, 117u8, 110u8, 100u8, 32u8]
}

/// The bytes of `', but found `.
pub fn lit_root_expected_mid() -> (r: Vec<u8>)
    ensures
        r@ == spec_root_expected_mid(),
{
    let a: [u8; 13] = [39, 44, 32, 98, 117, 116, 32, 102, 111, 117, 110, 100, 32];
    assert(a@ =~= spec_root_expected_mid());
    vstd::slice::slice_to_vec(a.as_slice())
}

/// The bytes of `Failed to process root URI '`: the opening of the root-failure message.
pub open spec fn spec_root_failed_pre() -> Seq<u8> {
    seq![70u8, 97u8, 105u8, 108u8, 101u8, 100u8, 32u8, 116u8, 111u8, 32u8, 112u8, 114u8, 111u8, 99u8, 101u8, 115u8, 115u8, 32u8, 114u8, 111u8, 111u8, 116u8, 32u8, 85u8, 82u8, 73u8, 32u8, 39u8]
}

/// The bytes of `Failed to process root URI '`.
pub fn lit_root_failed_pre() -> (r: Vec<u8>)
    ensures
        r@ == spec_root_failed_pre(),
{
    let a: [u8; 28] = [70, 97, 105, 108, 101, 100, 32, 116, 111, 32, 112, 114, 111, 99, 101, 115, 115, 32, 114, 111, 111, 116, 32, 85, 82, 73, 32, 39];
    assert(a@ =~= spec_root_failed_pre());
    vstd::slice::slice_to_vec(a.as_slice())
}

/// The bytes of `': `: the separator before an error's name.
pub open spec fn spec_failed_sep() -> Seq<u8> {
    seq![39u8, 58u8, 32u8]
}

/// The bytes of `': `.
pub fn lit_failed_sep() -> (r: Vec<u8>)
    ensures
        r@ == spec_failed_sep(),
{
    let a: [u8; 3] = [39, 58, 32];
    assert(a@ =~= spec_failed_sep());
    vstd::slice::slice_to_vec(a.as_slice())
}

/// The bytes of `Expected Component predicate, found `: the component-kind error message.
pub open spec fn spec_expected_component_pre() -> Seq<u8> {
    seq![69u8, 120u8, 112u8, 101u8, 99u8, 116u8, 101u8, 100u8, 32u8, 67u8, 111u8, 109u8, 112u8, 111u8, 110u8, 101u8, 110u8, 116u8, 32u8, 112u8, 114u8, 101u8, 100u8, 105u8, 99u8, 97u8, 116u8, 101u8, 44u8, 32u8, 102u8, 111u8, 117u8, 110u8, 100u8, 32u8]
}

/// The bytes of `Expected Component predicate, found `.
pub fn lit_expected_component_pre() -> (r: Vec<u8>)
    ensures
        r@ == spec_expected_component_pre(),
{
    let a: [u8; 36] = [69, 120, 112, 101, 99, 116, 101, 100, 32, 67, 111, 109, 112, 111, 110, 101, 110, 116, 32, 112, 114, 101, 100, 105, 99, 97, 116, 101, 44, 32, 102, 111, 117, 110, 100, 32];
    assert(a@ =~= spec_expected_component_pre());
    vstd::slice::slice_to_vec(a.as_slice())
}

/// The bytes of `Expected Release predicate, found `: the release-kind error message.
pub open spec fn spec_expected_release_pre() -> Seq<u8> {
    seq![69u8, 120u8, 112u8, 101u8, 99u8, 116u8, 101u8, 100u8, 32u8, 82u8, 101u8, 108u8, 101u8, 97u8, 115u8, 101u8, 32u8, 112u8, 114u8, 101u8, 100u8, 105u8, 99u8, 97u8, 116u8, 101u8, 44u8, 32u8, 102u8, 111u8, 117u8, 110u8, 100u8, 32u8]
}

/// The bytes of `Expected Release predicate, found `.
pub fn lit_expected_release_pre() -> (r: Vec<u8>)
    ensures
        r@ == spec_expected_release_pre(),
{
    let a: [u8; 34] = [69, 120, 112, 101, 99, 116, 101, 100, 32, 82, 101, 108, 101, 97, 115, 101, 32, 112, 114, 101, 100, 105, 99, 97, 116, 101, 44, 32, 102, 111, 117, 110, 100, 32];
    assert(a@ =~= spec_expected_release_pre());
    vstd::slice::slice_to_vec(a.as_slice())
}

/// The bytes of `Catalog`: the name of the catalog predicate kind.
pub open spec fn spec_kind_catalog() -> Seq<u8> {
    seq![67u8, 97u8, 116u8, 97u8, 108u8, 111u8, 103u8]
}

/// The bytes of `Catalog`.
pub fn lit_kind_catalog() -> (r: Vec<u8>)
    ensures
        r@ == spec_kind_catalog(),
{
    let a: [u8; 7] = [67, 97, 116, 97, 108, 111, 103];
    assert(a@ =~= spec_kind_catalog());
    vstd::slice::slice_to_vec(a.as_slice())
}

/// The bytes of `Component`: the name of the component predicate kind.
pub open spec fn spec_kind_component() -> Seq<u8> {
    seq![67u8, 111u8, 109u8, 112u8, 111u8, 110u8, 101u8, 110u8, 116u8]
}

/// The bytes of `Component`.
pub fn lit_kind_component() -> (r: Vec<u8>)
    ensures
        r@ == spec_kind_component(),
{
    let a: [u8; 9] = [67, 111, 109, 112, 111, 110, 101, 110, 116];
    assert(a@ =~= spec_kind_component());
    vstd::slice::slice_to_vec(a.as_slice())
}

/// The bytes of `Release`: the name of the release predicate kind.
pub open spec fn spec_kind_release() -> Seq<u8> {
    seq![82u8, 101u8, 108u8, 101u8, 97u8, 115u8, 101u8]
}

/// The bytes of `Release`.
pub fn lit_kind_release() -> (r: Vec<u8>)
    ensures
        r@ == spec_kind_release(),
{
    let a: [u8; 7] = [82, 101, 108, 101, 97, 115, 101];
    assert(a@ =~= spec_kind_release());
    vstd::slice::slice_to_vec(a.as_slice())
}

/// The bytes of `Unknown`: the name of the unknown predicate kind.
pub open spec fn spec_kind_unknown() -> Seq<u8> {
    seq![85u8, 110u8, 107u8, 110u8, 111u8, 119u8, 110u8]
}

/// The bytes of `Unknown`.
pub fn lit_kind_unknown() -> (r: Vec<u8>)
    ensures
        r@ == spec_kind_unknown(),
{
    let a: [u8; 7] = [85, 110, 107, 110, 111, 119, 110];
    assert(a@ =~= spec_kind_unknown());
    vstd::slice::slice_to_vec(a.as_slice())
}

/// The bytes of `MalformedBundle`: the name of the malformed-bundle error.
pub open spec fn spec_err_malformed_bundle() -> Seq<u8> {
    seq![77u8, 97u8, 108u8, 102u8, 111u8, 114u8, 109u8, 101u8, 100u8, 66u8, 117u8, 110u8, 100u8, 108u8, 101u8]
}

/// The bytes of `MalformedBundle`.
pub fn lit_err_malformed_bundle() -> (r: Vec<u8>)
    ensures
        r@ == spec_err_malformed_bundle(),
{
    let a: [u8; 15] = [77, 97, 108, 102, 111, 114, 109, 101, 100, 66, 117, 110, 100, 108, 101];
    assert(a@ =~= spec_err_malformed_bundle());
    vstd::slice::slice_to_vec(a.as_slice())
}

/// The bytes of `SignatureInvalid`: the name of the bad-signature error.
pub open spec fn spec_err_signature_invalid() -> Seq<u8> {
    seq![83u8, 105u8, 103u8, 110u8, 97u8, 116u8, 117u8, 114u8, 101u8, 73u8, 110u8, 118u8, 97u8, 108u8, 105u8, 100u8]
}

/// The bytes of `SignatureInvalid`.
pub fn lit_err_signature_invalid() -> (r: Vec<u8>)
    ensures
        r@ == spec_err_signature_invalid(),
{
    let a: [u8; 16] = [83, 105, 103, 110, 97, 116, 117, 114, 101, 73, 110, 118, 97, 108, 105, 100];
    assert(a@ =~= spec_err_signature_invalid());
    vstd::slice::slice_to_vec(a.as_slice())
}

/// The bytes of `MalformedCertificate`: the name of the bad-certificate error.
pub open spec fn spec_err_malformed_certificate() -> Seq<u8> {
    seq![77u8, 97u8, 108u8, 102u8, 111u8, 114u8, 109u8, 101u8, 100u8, 67u8, 101u8, 114u8, 116u8, 105u8, 102u8, 105u8, 99u8, 97u8, 116u8, 101u8]
}

/// The bytes of `MalformedCertificate`.
pub fn lit_err_malformed_certificate() -> (r: Vec<u8>)
    ensures
        r@ == spec_err_malformed_certificate(),
{
    let a: [u8; 20] = [77, 97, 108, 102, 111, 114, 109, 101, 100, 67, 101, 114, 116, 105, 102, 105, 99, 97, 116, 101];
    assert(a@ =~= spec_err_malformed_certificate());
    vstd::slice::slice_to_vec(a.as_slice())
}

/// The bytes of `IdentityMismatch`: the name of the identity error.
pub open spec fn spec_err_identity_mismatch() -> Seq<u8> {
    seq![73u8, 100u8, 101u8, 110u8, 116u8, 105u8, 116u8, 121u8, 77u8, 105u8, 115u8, 109u8, 97u8, 116u8, 99u8, 104u8]
}

/// The bytes of `IdentityMismatch`.
pub fn lit_err_identity_mismatch() -> (r: Vec<u8>)
    ensures
        r@ == spec_err_identity_mismatch(),
{
    let a: [u8; 16] = [73, 100, 101, 110, 116, 105, 116, 121, 77, 105, 115, 109, 97, 116, 99, 104];
    assert(a@ =~= spec_err_identity_mismatch());
    vstd::slice::slice_to_vec(a.as_slice())
}

/// The bytes of `MalformedStatement`: the name of the bad-statement error.
pub open spec fn spec_err_malformed_statement() -> Seq<u8> {
    seq![77u8, 97u8, 108u8, 102u8, 111u8, 114u8, 109u8, 101u8, 100u8, 83u8, 116u8, 97u8, 116u8, 101u8, 109u8, 101u8, 110u8, 116u8]
}

/// The bytes of `MalformedStatement`.
pub fn lit_err_malformed_statement() -> (r: Vec<u8>)
    ensures
        r@ == spec_err_malformed_statement(),
{
    let a: [u8; 18] = [77, 97, 108, 102, 111, 114, 109, 101, 100, 83, 116, 97, 116, 101, 109, 101, 110, 116];
    assert(a@ =~= spec_err_malformed_statement());
    vstd::slice::slice_to_vec(a.as_slice())
}

/// The bytes of `MalformedPredicate`: the name of the bad-predicate error.
pub open spec fn spec_err_malformed_predicate() -> Seq<u8> {
    seq![77u8, 97u8, 108u8, 102u8, 111u8, 114u8, 109u8, 101u8, 100u8, 80u8, 114u8, 101u8, 100u8, 105u8, 99u8, 97u8, 116u8, 101u8]
}

/// The bytes of `MalformedPredicate`.
pub fn lit_err_malformed_predicate() -> (r: Vec<u8>)
    ensures
        r@ == spec_err_malformed_predicate(),
{
    let a: [u8; 18] = [77, 97, 108, 102, 111, 114, 109, 101, 100, 80, 114, 101, 100, 105, 99, 97, 116, 101];
    assert(a@ =~= spec_err_malformed_predicate());
    vstd::slice::slice_to_vec(a.as_slice())
}

/// The bytes of `ManifestEmpty`: the name of the empty-manifest error.
pub open spec fn spec_err_manifest_empty() -> Seq<u8> {
    seq![77u8, 97u8, 110u8, 105u8, 102u8, 101u8, 115u8, 116u8, 69u8, 109u8, 112u8, 116u8, 121u8]
}

/// The bytes of `ManifestEmpty`.
pub fn lit_err_manifest_empty() -> (r: Vec<u8>)
    ensures
        r@ == spec_err_manifest_empty(),
{
    let a: [u8; 13] = [77, 97, 110, 105, 102, 101, 115, 116, 69, 109, 112, 116, 121];
    assert(a@ =~= spec_err_manifest_empty());
    vstd::slice::slice_to_vec(a.as_slice())
}

/// The bytes of `UnsupportedAlgorithm`: the name of the unrecognized-key-algorithm error.
pub open spec fn spec_err_unsupported_algorithm() -> Seq<u8> {
    seq![85u8, 110u8, 115u8, 117u8, 112u8, 112u8, 111u8, 114u8, 116u8, 101u8, 100u8, 65u8, 108u8, 103u8, 111u8, 114u8, 105u8, 116u8, 104u8, 109u8]
}

/// The bytes of `UnsupportedAlgorithm`.
pub fn lit_err_unsupported_algorithm() -> (r: Vec<u8>)
    ensures
        r@ == spec_err_unsupported_algorithm(),
{
    let a: [u8; 20] = [85, 110, 115, 117, 112, 112, 111, 114, 116, 101, 100, 65, 108, 103, 111, 114, 105, 116, 104, 109];
    assert(a@ =~= spec_err_unsupported_algorithm());
    vstd::slice::slice_to_vec(a.as_slice())
}

} // verus!
