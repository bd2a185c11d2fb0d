use vstd::prelude::*;

verus! {

/// ASCII lower-casing of one byte: `'A'..='Z'` map to `'a'..='z'`,
/// every other byte is unchanged.
pub open spec fn spec_ascii_lower(b: u8) -> u8 {
    if 65 <= b && b <= 90 {
        (b + 32) as u8
    } else {
        b
    }
}

/// Two byte strings are equal up to ASCII case.
pub open spec fn spec_eq_ignore_case(a: Seq<u8>, b: Seq<u8>) -> bool {
    a.map_values(|x: u8| spec_ascii_lower(x)) == b.map_values(|x: u8| spec_ascii_lower(x))
}

/// Executable ASCII lower-casing of one byte.
pub fn ascii_lower(b: u8) -> (r: u8)
    ensures
        r == spec_ascii_lower(b),
{
    if 65 <= b && b <= 90 {
        b + 32
    } else {
        b
    }
}

/// Byte-string equality.
pub fn bytes_eq(a: &[u8], b: &[u8]) -> (r: bool)
    ensures
        r == (a@ == b@),
{
    if a.len() != b.len() {
        assert(a@.len() != b@.len());
        return false;
    }
    let n = a.len();
    let mut i: usize = 0;
    while i < n
        invariant
            n == a@.len() && n == b@.len(),
            i <= n,
            forall|j: int| 0 <= j < i ==> a@[j] == b@[j],
        decreases n - i,
    {
        if a[i] != b[i] {
            return false;
        }
        i += 1;
    }
    assert(a@ =~= b@);
    true
}

/// Byte-string equality up to ASCII case, as used for RFC822 identities
/// and hexadecimal digests.
pub fn bytes_eq_ignore_case(a: &[u8], b: &[u8]) -> (r: bool)
    ensures
        r == spec_eq_ignore_case(a@, b@),
{
    let ghost la = a@.map_values(|x: u8| spec_ascii_lower(x));
    let ghost lb = b@.map_values(|x: u8| spec_ascii_lower(x));
    if a.len() != b.len() {
        assert(la.len() != lb.len());
        return false;
    }
    let n = a.len();
    let mut i: usize = 0;
    while i < n
        invariant
            n == a@.len() && n == b@.len(),
            la == a@.map_values(|x: u8| spec_ascii_lower(x)),
            lb == b@.map_values(|x: u8| spec_ascii_lower(x)),
            i <= n,
            forall|j: int| 0 <= j < i ==> la[j] == lb[j],
        decreases n - i,
    {
        if ascii_lower(a[i]) != ascii_lower(b[i]) {
            assert(la[i as int] != lb[i as int]);
            return false;
        }
        i += 1;
    }
    assert(la =~= lb);
    true
}

/// A copy of a byte string.
pub fn clone_bytes(v: &Vec<u8>) -> (r: Vec<u8>)
    ensures
        r@ == v@,
{
    vstd::slice::slice_to_vec(v.as_slice())
}

/// Case-insensitive equality is reflexive.
pub proof fn lemma_eq_ignore_case_refl(a: Seq<u8>)
    ensures
        spec_eq_ignore_case(a, a),
{
}

} // verus!
