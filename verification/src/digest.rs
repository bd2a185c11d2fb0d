use vstd::prelude::*;
use crate::ascii::{bytes_eq_ignore_case, lemma_eq_ignore_case_refl, spec_eq_ignore_case};

verus! {

/// The SHA-256 digest of a byte sequence. The digest is a pure function
/// of the input bytes; its 32 output bytes are not written out here.
pub uninterp spec fn sha256_of(data: Seq<u8>) -> Seq<u8>;

/// Relies on sha2's `Sha256` (through the `Digest` trait): the SHA-256
/// digest of the input, 32 bytes long, depending on the input alone.
#[verifier::external_body]
pub fn sha256_digest(data: &[u8]) -> (r: Vec<u8>)
    ensures
        r@ == sha256_of(data@),
        r@.len() == 32,
{
    <sha2::Sha256 as sha2::Digest>::digest(data).to_vec()
}

/// The lower-case hexadecimal digit for a value below 16.
pub open spec fn spec_hex_digit(n: u8) -> u8 {
    if n < 10 {
        (48 + n) as u8
    } else {
        (87 + n) as u8
    }
}

/// Lower-case hexadecimal encoding: two digits for each byte, high
/// nibble first.
pub open spec fn spec_hex_lower(data: Seq<u8>) -> Seq<u8>
    decreases data.len(),
{
    if data.len() == 0 {
        Seq::empty()
    } else {
        seq![
            spec_hex_digit((data.first() >> 4u8) as u8),
            spec_hex_digit((data.first() & 15u8) as u8),
        ] + spec_hex_lower(data.drop_first())
    }
}

fn hex_digit(n: u8) -> (r: u8)
    requires
        n < 16,
    ensures
        r == spec_hex_digit(n),
{
    if n < 10 {
        48 + n
    } else {
        87 + n
    }
}

/// Lower-case hexadecimal encoding of a byte string.
pub fn to_hex_lower(data: &[u8]) -> (r: Vec<u8>)
    ensures
        r@ == spec_hex_lower(data@),
{
    let n = data.len();
    let mut r: Vec<u8> = Vec::new();
    assert(data@.skip(0) == data@);
    let mut i: usize = 0;
    while i < n
        invariant
            n == data@.len(),
            i <= n,
            spec_hex_lower(data@) == r@ + spec_hex_lower(data@.skip(i as int)),
            r@.len() == 2 * i,
        decreases n - i,
    {
        let b = data[i];
        assert((b >> 4u8) < 16 && (b & 15u8) < 16) by (bit_vector);
        r.push(hex_digit(b >> 4u8));
        r.push(hex_digit(b & 15u8));
        proof {
            let rest = data@.skip(i as int);
            assert(rest.drop_first() == data@.skip(i + 1));
            assert(spec_hex_lower(data@) =~= r@ + spec_hex_lower(data@.skip(i + 1)));
        }
        i += 1;
    }
    assert(spec_hex_lower(data@.skip(n as int)) =~= Seq::<u8>::empty());
    assert(r@ =~= spec_hex_lower(data@));
    r
}

/// Whether `expected` names, up to ASCII case, the lower-case
/// hexadecimal SHA-256 digest of `body`.
pub open spec fn spec_digest_matches(expected: Seq<u8>, body: Seq<u8>) -> bool {
    spec_eq_ignore_case(expected, spec_hex_lower(sha256_of(body)))
}

/// Compares an expected hexadecimal digest with the SHA-256 digest of
/// `body`, ignoring ASCII case.
pub fn verify_sha256_hex(expected: &[u8], body: &[u8]) -> (r: bool)
    ensures
        r == spec_digest_matches(expected@, body@),
{
    let digest = sha256_digest(body);
    let hex = to_hex_lower(digest.as_slice());
    bytes_eq_ignore_case(expected, hex.as_slice())
}

/// A digest that was copied from the body's own SHA-256 always matches:
/// for any bytes `body`, the lower-case hexadecimal of `sha256(body)`
/// passes the comparison.
pub proof fn lemma_digest_round_trip(expected: Seq<u8>, body: Seq<u8>)
    requires
        expected == spec_hex_lower(sha256_of(body)),
    ensures
        spec_digest_matches(expected, body),
{
    lemma_eq_ignore_case_refl(expected);
}

} // verus!
