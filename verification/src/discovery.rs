use vstd::prelude::*;
use crate::literals::{lit_identity_prefix, lit_uri_prefix, spec_identity_prefix, spec_uri_prefix};
use crate::manifest::spec_is_ws;

verus! {

/// Whether `b` is an ASCII whitespace byte (see the manifest module).
fn is_ws_byte(b: u8) -> (r: bool)
    ensures
        r == spec_is_ws(b),
{
    b == 32 || (9 <= b && b <= 13)
}

/// The longest prefix of `s` that holds no whitespace byte.
pub open spec fn spec_take_word(s: Seq<u8>) -> Seq<u8>
    decreases s.len(),
{
    if s.len() == 0 || spec_is_ws(s.first()) {
        Seq::empty()
    } else {
        seq![s.first()] + spec_take_word(s.drop_first())
    }
}

/// A non-empty word is at least one byte and at most the whole input.
proof fn lemma_take_word_len(s: Seq<u8>)
    ensures
        spec_take_word(s).len() <= s.len(),
        s.len() > 0 && !spec_is_ws(s.first()) ==> spec_take_word(s).len() >= 1,
    decreases s.len(),
{
    if s.len() > 0 && !spec_is_ws(s.first()) {
        lemma_take_word_len(s.drop_first());
    }
}

/// The whitespace-separated words of `s`, in order.
pub open spec fn spec_tokens(s: Seq<u8>) -> Seq<Seq<u8>>
    decreases s.len(),
    via spec_tokens_decreases
{
    if s.len() == 0 {
        Seq::empty()
    } else if spec_is_ws(s.first()) {
        spec_tokens(s.drop_first())
    } else {
        seq![spec_take_word(s)] + spec_tokens(s.skip(spec_take_word(s).len() as int))
    }
}

#[via_fn]
proof fn spec_tokens_decreases(s: Seq<u8>) {
    lemma_take_word_len(s);
}

/// Whether `p` spells the beginning of `s`.
pub open spec fn spec_has_prefix(s: Seq<u8>, p: Seq<u8>) -> bool {
    p.len() <= s.len() && s.take(p.len() as int) == p
}

/// Whether `p` spells the beginning of `s`.
pub fn has_prefix(s: &[u8], p: &[u8]) -> (r: bool)
    ensures
        r == spec_has_prefix(s@, p@),
{
    if p.len() > s.len() {
        return false;
    }
    let n = p.len();
    let mut i: usize = 0;
    while i < n
        invariant
            n == p@.len(),
            n <= s@.len(),
            i <= n,
            forall|j: int| 0 <= j < i ==> s@[j] == p@[j],
        decreases n - i,
    {
        if s[i] != p[i] {
            assert(s@.take(n as int)[i as int] != p@[i as int]);
            return false;
        }
        i += 1;
    }
    assert(s@.take(n as int) =~= p@);
    true
}

/// `s` with every leading and trailing double-quote removed.
pub open spec fn spec_trim_quotes(s: Seq<u8>) -> Seq<u8>
    decreases s.len(),
{
    if s.len() > 0 && s.first() == 34 {
        spec_trim_quotes(s.drop_first())
    } else if s.len() > 0 && s.last() == 34 {
        spec_trim_quotes(s.drop_last())
    } else {
        s
    }
}

/// Strips every leading and trailing double-quote of a token's value.
pub fn trim_quotes(v: &[u8]) -> (r: Vec<u8>)
    ensures
        r@ == spec_trim_quotes(v@),
{
    let n = v.len();
    let mut a: usize = 0;
    proof {
        assert(v@.subrange(0, n as int) =~= v@);
    }
    while a < n && v[a] == 34
        invariant
            n == v@.len(),
            a <= n,
            spec_trim_quotes(v@) == spec_trim_quotes(v@.subrange(a as int, n as int)),
        decreases n - a,
    {
        proof {
            assert(v@.subrange(a as int, n as int).drop_first() =~= v@.subrange(a + 1, n as int));
        }
        a += 1;
    }
    let mut b: usize = n;
    while b > a && v[b - 1] == 34
        invariant
            n == v@.len(),
            a <= b <= n,
            a < n ==> v@[a as int] != 34,
            spec_trim_quotes(v@) == spec_trim_quotes(v@.subrange(a as int, b as int)),
        decreases b,
    {
        proof {
            assert(v@.subrange(a as int, b as int).drop_last() =~= v@.subrange(a as int, b - 1));
        }
        b -= 1;
    }
    let mut out: Vec<u8> = Vec::new();
    let mut t: usize = a;
    while t < b
        invariant
            n == v@.len(),
            a <= t <= b <= n,
            out@ == v@.subrange(a as int, t as int),
        decreases b - t,
    {
        out.push(v[t]);
        proof {
            assert(v@.subrange(a as int, t as int) + seq![v@[t as int]] =~= v@.subrange(
                a as int,
                t + 1,
            ));
        }
        t += 1;
    }
    proof {
        if a == b {
            assert(v@.subrange(a as int, b as int) =~= Seq::<u8>::empty());
        }
        assert(spec_trim_quotes(v@.subrange(a as int, b as int)) == v@.subrange(a as int, b as int));
    }
    out
}

/// Splits `s` into its whitespace-separated words.
pub fn tokens(s: &[u8]) -> (r: Vec<Vec<u8>>)
    ensures
        r.deep_view() == spec_tokens(s@),
{
    broadcast use crate::views::lemma_bytes_deep_view;

    let n = s.len();
    let mut out: Vec<Vec<u8>> = Vec::new();
    let mut i: usize = 0;
    proof {
        assert(s@.skip(0) =~= s@);
        assert(out.deep_view() =~= Seq::<Seq<u8>>::empty());
        assert(out.deep_view() + spec_tokens(s@.skip(0)) =~= spec_tokens(s@));
    }
    while i < n
        invariant
            n == s@.len(),
            i <= n,
            out.deep_view() + spec_tokens(s@.skip(i as int)) == spec_tokens(s@),
        decreases n - i,
    {
        if is_ws_byte(s[i]) {
            proof {
                assert(s@.skip(i as int).drop_first() =~= s@.skip(i + 1));
            }
            i += 1;
        } else {
            let ghost rest = s@.skip(i as int);
            let mut j: usize = i;
            while j < n && !is_ws_byte(s[j])
                invariant
                    n == s@.len(),
                    i <= j <= n,
                    rest == s@.skip(i as int),
                    spec_take_word(rest) == s@.subrange(i as int, j as int) + spec_take_word(
                        s@.skip(j as int),
                    ),
                decreases n - j,
            {
                proof {
                    assert(s@.skip(j as int).drop_first() =~= s@.skip(j + 1));
                    assert(s@.subrange(i as int, j as int) + seq![s@[j as int]] =~= s@.subrange(
                        i as int,
                        j + 1,
                    ));
                }
                j += 1;
            }
            proof {
                if j == n {
                    assert(s@.skip(n as int) =~= Seq::<u8>::empty());
                }
                assert(spec_take_word(rest) == s@.subrange(i as int, j as int));
            }
            let mut w: Vec<u8> = Vec::new();
            let mut t: usize = i;
            while t < j
                invariant
                    n == s@.len(),
                    i <= t <= j <= n,
                    w@ == s@.subrange(i as int, t as int),
                decreases j - t,
            {
                w.push(s[t]);
                proof {
                    assert(s@.subrange(i as int, t as int) + seq![s@[t as int]] =~= s@.subrange(
                        i as int,
                        t + 1,
                    ));
                }
                t += 1;
            }
            let ghost prev = out.deep_view();
            let ghost wv = w@;
            proof {
                assert(w.deep_view() == w@);
            }
            out.push(w);
            proof {
                assert(out.deep_view() =~= prev.push(wv));
                assert(spec_take_word(rest).len() == j - i);
                assert(rest.skip(spec_take_word(rest).len() as int) =~= s@.skip(j as int));
                assert(spec_tokens(rest) == seq![wv] + spec_tokens(s@.skip(j as int)));
                assert(prev.push(wv) + spec_tokens(s@.skip(j as int)) =~= prev + (seq![wv]
                    + spec_tokens(s@.skip(j as int))));
            }
            i = j;
        }
    }
    proof {
        assert(s@.skip(n as int) =~= Seq::<u8>::empty());
        assert(out.deep_view() + Seq::<Seq<u8>>::empty() =~= out.deep_view());
    }
    out
}

/// The value of the last word carrying this prefix, quote-trimmed, as
/// the discovery record scan keeps the latest of repeated keys.
pub open spec fn spec_last_with_prefix(ts: Seq<Seq<u8>>, p: Seq<u8>) -> Option<Seq<u8>>
    decreases ts.len(),
{
    if ts.len() == 0 {
        None
    } else if spec_has_prefix(ts.last(), p) {
        Some(spec_trim_quotes(ts.last().skip(p.len() as int)))
    } else {
        spec_last_with_prefix(ts.drop_last(), p)
    }
}

/// Finds the value of the last word carrying this prefix.
pub fn last_with_prefix(ts: &Vec<Vec<u8>>, p: &[u8]) -> (r: Option<Vec<u8>>)
    ensures
        match spec_last_with_prefix(ts.deep_view(), p@) {
            Some(v) => r matches Some(o) && o@ == v,
            None => r is None,
        },
{
    broadcast use crate::views::lemma_bytes_deep_view;

    let ghost tv = ts.deep_view();
    let n = ts.len();
    let mut cur: Option<Vec<u8>> = None;
    proof {
        assert(tv.take(0) =~= Seq::<Seq<u8>>::empty());
    }
    let mut i: usize = 0;
    while i < n
        invariant
            n == ts@.len(),
            tv == ts.deep_view(),
            i <= n,
            (match spec_last_with_prefix(tv.take(i as int), p@) {
                Some(v) => cur matches Some(o) && o@ == v,
                None => cur is None,
            }),
        decreases n - i,
    {
        proof {
            assert(tv.take(i + 1).drop_last() =~= tv.take(i as int));
            assert(tv.take(i + 1).last() == tv[i as int]);
        }
        let w = &ts[i];
        proof {
            assert(tv[i as int] == ts@[i as int].deep_view());
            assert(ts@[i as int].deep_view() == ts@[i as int]@);
        }
        if has_prefix(w.as_slice(), p) {
            let tail = vstd::slice::slice_subrange(w.as_slice(), p.len(), w.len());
            proof {
                assert(w@.subrange(p@.len() as int, w@.len() as int) =~= tv[i as int].skip(
                    p@.len() as int,
                ));
            }
            cur = Some(trim_quotes(tail));
        }
        i += 1;
    }
    proof {
        assert(tv.take(n as int) =~= tv);
    }
    cur
}

/// What one concatenated TXT record yields: the values of its last
/// `uri=` and `identity=` words, quotes stripped, where both are
/// present and non-empty.
pub open spec fn spec_record_result(rec: Seq<u8>) -> Option<(Seq<u8>, Seq<u8>)> {
    let ts = spec_tokens(rec);
    match (spec_last_with_prefix(ts, spec_uri_prefix()), spec_last_with_prefix(
        ts,
        spec_identity_prefix(),
    )) {
        (Some(u), Some(id)) => if u.len() > 0 && id.len() > 0 {
            Some((u, id))
        } else {
            None
        },
        _ => None,
    }
}

/// What discovery yields over the records in order: the first record
/// that names both a root URI and an identity.
pub open spec fn spec_discovery(records: Seq<Seq<u8>>) -> Option<(Seq<u8>, Seq<u8>)>
    decreases records.len(),
{
    if records.len() == 0 {
        None
    } else {
        match spec_record_result(records.first()) {
            Some(r) => Some(r),
            None => spec_discovery(records.drop_first()),
        }
    }
}

/// Reads one concatenated TXT record: splits it into whitespace-
/// separated words and takes the last `uri=` and `identity=` values,
/// stripping surrounding double quotes; both must be non-empty.
pub fn parse_record(rec: &[u8]) -> (r: Option<(Vec<u8>, Vec<u8>)>)
    ensures
        match spec_record_result(rec@) {
            Some(p) => r matches Some(o) && o.0@ == p.0 && o.1@ == p.1,
            None => r is None,
        },
{
    let ts = tokens(rec);
    let up = lit_uri_prefix();
    let ip = lit_identity_prefix();
    let uri = match last_with_prefix(&ts, up.as_slice()) {
        Some(u) => u,
        None => {
            return None;
        },
    };
    let ident = match last_with_prefix(&ts, ip.as_slice()) {
        Some(id) => id,
        None => {
            return None;
        },
    };
    if uri.len() == 0 || ident.len() == 0 {
        return None;
    }
    Some((uri, ident))
}

/// Resolves discovery over the concatenated TXT records in order: the
/// first record that names both a non-empty root URI and a non-empty
/// signer identity wins.
pub fn parse_discovery_records(records: &Vec<Vec<u8>>) -> (r: Option<(Vec<u8>, Vec<u8>)>)
    ensures
        match spec_discovery(records.deep_view()) {
            Some(p) => r matches Some(o) && o.0@ == p.0 && o.1@ == p.1,
            None => r is None,
        },
{
    broadcast use crate::views::lemma_bytes_deep_view;

    let ghost rv = records.deep_view();
    let n = records.len();
    let mut i: usize = 0;
    proof {
        assert(rv.skip(0) =~= rv);
    }
    while i < n
        invariant
            n == records@.len(),
            rv == records.deep_view(),
            i <= n,
            spec_discovery(rv) == spec_discovery(rv.skip(i as int)),
        decreases n - i,
    {
        proof {
            assert(rv.skip(i as int).first() == rv[i as int]);
            assert(rv.skip(i as int).drop_first() =~= rv.skip(i + 1));
            assert(rv[i as int] == records@[i as int].deep_view());
            assert(records@[i as int].deep_view() == records@[i as int]@);
        }
        match parse_record(records[i].as_slice()) {
            Some(p) => {
                return Some(p);
            },
            None => {},
        }
        i += 1;
    }
    proof {
        assert(rv.skip(n as int) =~= Seq::<Seq<u8>>::empty());
    }
    None
}

} // verus!
