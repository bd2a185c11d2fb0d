use vstd::prelude::*;
use crate::ascii::{bytes_eq_ignore_case, spec_eq_ignore_case};

verus! {

/// What parsing an X.509 certificate from DER yields: `None` where the
/// DER does not parse; otherwise the subject-public-key-info DER and,
/// where the subject-alternative-name extension is present and
/// readable, its RFC822 (email) entries in order. A pure function of
/// the DER bytes.
pub uninterp spec fn cert_info_of(der: Seq<u8>) -> Option<(Seq<u8>, Option<Seq<Seq<u8>>>)>;

/// Relies on x509-parser's `parse_x509_certificate` and
/// `X509Certificate::subject_alternative_name`: the certificate's
/// subject-public-key-info DER, and the RFC822 subject alternative
/// names where that extension is present and readable.
#[verifier::external_body]
pub fn parse_certificate(der: &[u8]) -> (r: Option<(Vec<u8>, Option<Vec<Vec<u8>>>)>)
    ensures
        match r {
            Some(info) => cert_info_of(der@) == Some(
                (
                    info.0@,
                    match info.1 {
                        Some(sans) => Some(sans@.map_values(|s: Vec<u8>| s@)),
                        None => None,
                    },
                ),
            ),
            None => cert_info_of(der@) is None,
        },
{
    let (_, cert) = match x509_parser::parse_x509_certificate(der) {
        Ok(c) => c,
        Err(_) => return None,
    };
    let spki = cert.public_key().raw.to_vec();
    let sans = match cert.subject_alternative_name() {
        Ok(Some(ext)) => Some(ext.value.general_names.iter().filter_map(|n| match n {
            x509_parser::extensions::GeneralName::RFC822Name(e) => Some(e.as_bytes().to_vec()),
            _ => None,
        }).collect()),
        _ => None,
    };
    Some((spki, sans))
}

/// Whether some entry of `sans` equals `expected` up to ASCII case.
pub open spec fn spec_identity_in(sans: Seq<Seq<u8>>, expected: Seq<u8>) -> bool {
    exists|i: int| 0 <= i < sans.len() && spec_eq_ignore_case(sans[i], expected)
}

/// Looks for the expected identity among the RFC822 subject
/// alternative names, comparing up to ASCII case.
pub fn match_identity(sans: &Vec<Vec<u8>>, expected: &[u8]) -> (r: bool)
    ensures
        r == spec_identity_in(sans@.map_values(|s: Vec<u8>| s@), expected@),
{
    let ghost gsans = sans@.map_values(|s: Vec<u8>| s@);
    let n = sans.len();
    let mut i: usize = 0;
    while i < n
        invariant
            n == sans@.len(),
            gsans == sans@.map_values(|s: Vec<u8>| s@),
            i <= n,
            forall|j: int| 0 <= j < i ==> !spec_eq_ignore_case(gsans[j], expected@),
        decreases n - i,
    {
        if bytes_eq_ignore_case(sans[i].as_slice(), expected) {
            assert(spec_eq_ignore_case(gsans[i as int], expected@));
            return true;
        }
        i += 1;
    }
    false
}

} // verus!
