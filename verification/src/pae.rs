use vstd::prelude::*;

verus! {

/// The ASCII base-10 digits of `n`, most significant first.
pub open spec fn spec_decimal(n: nat) -> Seq<u8>
    decreases n,
{
    if n < 10 {
        seq![(48 + n) as u8]
    } else {
        spec_decimal(n / 10).push((48 + n % 10) as u8)
    }
}

/// The ASCII base-10 digits of `n`, as bytes.
pub fn u64_to_decimal(n: u64) -> (r: Vec<u8>)
    ensures
        r@ == spec_decimal(n as nat),
    decreases n,
{
    if n < 10 {
        let mut v: Vec<u8> = Vec::new();
        v.push(48 + n as u8);
        v
    } else {
        let mut v = u64_to_decimal(n / 10);
        v.push(48 + (n % 10) as u8);
        v
    }
}

/// The bytes of `"DSSEv1"`.
pub open spec fn spec_dsse_v1() -> Seq<u8> {
    seq![68u8, 83u8, 83u8, 69u8, 118u8, 49u8]
}

/// One ASCII space.
pub open spec fn spec_sp() -> Seq<u8> {
    seq![32u8]
}

/// The DSSE v1 Pre-Authentication Encoding of a payload type `t` and a
/// payload `p`:
/// `"DSSEv1" SP len(t) SP t SP len(p) SP p`,
/// with both lengths in ASCII base 10 and no trailing newline.
pub open spec fn spec_pae(t: Seq<u8>, p: Seq<u8>) -> Seq<u8> {
    spec_dsse_v1() + spec_sp() + spec_decimal(t.len()) + spec_sp() + t + spec_sp()
        + spec_decimal(p.len()) + spec_sp() + p
}

/// Appends all of `src` to `dst`.
pub fn append_bytes(dst: &mut Vec<u8>, src: &[u8])
    ensures
        final(dst)@ == old(dst)@ + src@,
{
    let n = src.len();
    let mut i: usize = 0;
    while i < n
        invariant
            n == src@.len(),
            i <= n,
            dst@ == old(dst)@ + src@.subrange(0, i as int),
        decreases n - i,
    {
        dst.push(src[i]);
        assert(dst@ == old(dst)@ + src@.subrange(0, i + 1 as int));
        i += 1;
    }
    assert(src@.subrange(0, n as int) == src@);
}

/// Builds the DSSE v1 Pre-Authentication Encoding over which a DSSE
/// signature is computed.
pub fn construct_pae(payload_type: &[u8], payload: &[u8]) -> (r: Vec<u8>)
    ensures
        r@ == spec_pae(payload_type@, payload@),
{
    let mut pae: Vec<u8> = Vec::new();
    pae.push(68);
    pae.push(83);
    pae.push(83);
    pae.push(69);
    pae.push(118);
    pae.push(49);
    pae.push(32);
    let tlen = u64_to_decimal(payload_type.len() as u64);
    append_bytes(&mut pae, tlen.as_slice());
    pae.push(32);
    append_bytes(&mut pae, payload_type);
    pae.push(32);
    let plen = u64_to_decimal(payload.len() as u64);
    append_bytes(&mut pae, plen.as_slice());
    pae.push(32);
    append_bytes(&mut pae, payload);
    assert(pae@ =~= spec_pae(payload_type@, payload@));
    pae
}

/// The Pre-Authentication Encoding is exactly the concatenation of
/// `"DSSEv1 "`, the ASCII decimal length of `t`, `" "`, `t`, `" "`,
/// the ASCII decimal length of `p`, `" "`, and `p`; in particular its
/// length is the header's length plus the payload's length, and it ends
/// with `p` itself (no trailing byte).
pub proof fn lemma_pae_bit_exact(t: Seq<u8>, p: Seq<u8>)
    ensures
        spec_pae(t, p) == spec_dsse_v1() + spec_sp() + spec_decimal(t.len()) + spec_sp() + t
            + spec_sp() + spec_decimal(p.len()) + spec_sp() + p,
        spec_pae(t, p).len() == 10 + spec_decimal(t.len()).len() + t.len()
            + spec_decimal(p.len()).len() + p.len(),
        spec_pae(t, p).skip(spec_pae(t, p).len() - p.len() as int) == p,
{
    let whole = spec_pae(t, p);
    assert(whole.skip(whole.len() - p.len() as int) =~= p);
}

} // verus!
