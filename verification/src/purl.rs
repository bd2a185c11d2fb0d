use vstd::prelude::*;
use crate::ascii::bytes_eq;
use crate::literals::{lit_chainsights, spec_chainsights};

verus! {

/// The parts of a parsed package URL.
pub struct PurlParts {
    pub ty: Vec<u8>,
    pub namespace: Option<Vec<u8>>,
    pub name: Vec<u8>,
    pub version: Option<Vec<u8>>,
}

/// What PURL parsing returns for the given text: `None` where the text
/// is not a package URL, otherwise its (type, namespace, name,
/// version). A pure function of the input.
pub uninterp spec fn purl_parts_of(s: Seq<u8>) -> Option<
    (Seq<u8>, Option<Seq<u8>>, Seq<u8>, Option<Seq<u8>>),
>;

/// Relies on packageurl's `PackageUrl::from_str` (reached through
/// `core::str::from_utf8`, so bytes that are not UTF-8 parse as no
/// PURL): the PURL's type, namespace, name and version, functions of
/// the input text alone.
#[verifier::external_body]
pub fn parse_purl(s: &[u8]) -> (r: Option<PurlParts>)
    ensures
        match r {
            Some(p) => purl_parts_of(s@) == Some(
                (
                    p.ty@,
                    match p.namespace {
                        Some(n) => Some(n@),
                        None => None,
                    },
                    p.name@,
                    match p.version {
                        Some(v) => Some(v@),
                        None => None,
                    },
                ),
            ),
            None => purl_parts_of(s@) is None,
        },
{
    let text = match core::str::from_utf8(s) {
        Ok(t) => t,
        Err(_) => return None,
    };
    let p = match <packageurl::PackageUrl as core::str::FromStr>::from_str(text) {
        Ok(p) => p,
        Err(_) => return None,
    };
    Some(PurlParts {
        ty: p.ty().as_bytes().to_vec(),
        namespace: p.namespace().map(|n| n.as_bytes().to_vec()),
        name: p.name().as_bytes().to_vec(),
        version: p.version().map(|v| v.as_bytes().to_vec()),
    })
}

/// Why a PURL was rejected for the chainsights flow.
#[derive(Clone, Copy, Debug, PartialEq, Eq, Structural)]
pub enum PurlError {
    /// The text is not a package URL.
    Invalid,
    /// The PURL's type is not `chainsights`.
    WrongType,
    /// The PURL has no namespace, which carries the domain.
    MissingNamespace,
    /// The PURL's component name is empty.
    EmptyName,
}

/// What validating a chainsights PURL yields: the (domain, component
/// name, optional version), or the first reason it is rejected.
pub open spec fn spec_parse_chainsights_purl(s: Seq<u8>) -> Result<
    (Seq<u8>, Seq<u8>, Option<Seq<u8>>),
    PurlError,
> {
    match purl_parts_of(s) {
        None => Err(PurlError::Invalid),
        Some((ty, ns, name, ver)) => if ty != spec_chainsights() {
            Err(PurlError::WrongType)
        } else {
            match ns {
                None => Err(PurlError::MissingNamespace),
                Some(domain) => if name.len() == 0 {
                    Err(PurlError::EmptyName)
                } else {
                    Ok((domain, name, ver))
                },
            }
        },
    }
}

/// Parses a PURL of the custom `chainsights` type: the namespace is
/// the domain, the name is the component, the version is optional.
/// Rejects any other type, a missing namespace, and an empty name.
pub fn parse_chainsights_purl(purl: &[u8]) -> (r: Result<(Vec<u8>, Vec<u8>, Option<Vec<u8>>), PurlError>)
    ensures
        match spec_parse_chainsights_purl(purl@) {
            Ok((domain, name, ver)) => r matches Ok(p) && p.0@ == domain && p.1@ == name && (match p.2 {
                Some(v) => ver == Some(v@),
                None => ver is None,
            }),
            Err(e) => r == Err::<(Vec<u8>, Vec<u8>, Option<Vec<u8>>), PurlError>(e),
        },
{
    let parts = match parse_purl(purl) {
        Some(p) => p,
        None => {
            return Err(PurlError::Invalid);
        },
    };
    let expected_ty = lit_chainsights();
    if !bytes_eq(parts.ty.as_slice(), expected_ty.as_slice()) {
        return Err(PurlError::WrongType);
    }
    let domain = match parts.namespace {
        Some(d) => d,
        None => {
            return Err(PurlError::MissingNamespace);
        },
    };
    if parts.name.len() == 0 {
        return Err(PurlError::EmptyName);
    }
    Ok((domain, parts.name, parts.version))
}

} // verus!
