use vstd::prelude::*;

verus! {

/// What standard (padded) base64 decoding returns for the input:
/// `None` where the input is not valid base64, otherwise the decoded
/// bytes. A pure function of the input.
pub uninterp spec fn b64_decoded(s: Seq<u8>) -> Option<Seq<u8>>;

/// Relies on base64's `Engine::decode` with the standard alphabet and
/// padding: the decoded bytes, a function of the input alone.
#[verifier::external_body]
pub fn base64_decode(s: &[u8]) -> (r: Option<Vec<u8>>)
    ensures
        match r {
            Some(v) => b64_decoded(s@) == Some(v@),
            None => b64_decoded(s@) is None,
        },
{
    base64::Engine::decode(&base64::engine::general_purpose::STANDARD, s).ok()
}

} // verus!
