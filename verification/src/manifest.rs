use vstd::prelude::*;

verus! {

/// Whether `b` is an ASCII whitespace byte (space, tab, line feed,
/// vertical tab, form feed, carriage return).
pub open spec fn spec_is_ws(b: u8) -> bool {
    b == 32 || (9 <= b && b <= 13)
}

fn is_ws(b: u8) -> (r: bool)
    ensures
        r == spec_is_ws(b),
{
    b == 32 || (9 <= b && b <= 13)
}

/// `s` with every leading whitespace byte removed.
pub open spec fn spec_skip_ws(s: Seq<u8>) -> Seq<u8>
    decreases s.len(),
{
    if s.len() > 0 && spec_is_ws(s.first()) {
        spec_skip_ws(s.drop_first())
    } else {
        s
    }
}

/// The longest prefix of `s` that holds no line feed.
pub open spec fn spec_take_line(s: Seq<u8>) -> Seq<u8>
    decreases s.len(),
{
    if s.len() == 0 || s.first() == 10 {
        Seq::empty()
    } else {
        seq![s.first()] + spec_take_line(s.drop_first())
    }
}

/// `s` with every trailing whitespace byte removed.
pub open spec fn spec_trim_end(s: Seq<u8>) -> Seq<u8>
    decreases s.len(),
{
    if s.len() > 0 && spec_is_ws(s.last()) {
        spec_trim_end(s.drop_last())
    } else {
        s
    }
}

/// The first non-empty line of a manifest body, trimmed of surrounding
/// whitespace: `None` where the body is whitespace alone. A manifest is
/// JSON Lines; only this line is consumed.
pub open spec fn spec_first_manifest_line(s: Seq<u8>) -> Option<Seq<u8>> {
    let rest = spec_skip_ws(s);
    if rest.len() == 0 {
        None
    } else {
        Some(spec_trim_end(spec_take_line(rest)))
    }
}

/// Finds the first non-empty line of a manifest body and trims it.
pub fn first_manifest_line(body: &[u8]) -> (r: Option<Vec<u8>>)
    ensures
        match spec_first_manifest_line(body@) {
            Some(line) => r matches Some(v) && v@ == line,
            None => r is None,
        },
{
    let n = body.len();
    let mut i: usize = 0;
    proof {
        assert(body@.skip(0) =~= body@);
    }
    while i < n && is_ws(body[i])
        invariant
            n == body@.len(),
            i <= n,
            spec_skip_ws(body@) == spec_skip_ws(body@.skip(i as int)),
        decreases n - i,
    {
        proof {
            assert(body@.skip(i as int).drop_first() =~= body@.skip(i + 1));
        }
        i += 1;
    }
    if i == n {
        proof {
            assert(body@.skip(n as int) =~= Seq::<u8>::empty());
        }
        return None;
    }
    let ghost rest = spec_skip_ws(body@);
    proof {
        assert(rest == body@.skip(i as int));
    }
    let mut j: usize = i;
    while j < n && body[j] != 10
        invariant
            n == body@.len(),
            i <= j <= n,
            rest == body@.skip(i as int),
            spec_take_line(rest) == body@.subrange(i as int, j as int) + spec_take_line(
                body@.skip(j as int),
            ),
        decreases n - j,
    {
        proof {
            assert(body@.skip(j as int).drop_first() =~= body@.skip(j + 1));
            assert(body@.subrange(i as int, j as int) + seq![body@[j as int]] =~= body@.subrange(
                i as int,
                j + 1,
            ));
        }
        j += 1;
    }
    proof {
        if j == n {
            assert(body@.skip(n as int) =~= Seq::<u8>::empty());
        }
        assert(spec_take_line(rest) == body@.subrange(i as int, j as int));
    }
    let mut k: usize = j;
    while k > i && is_ws(body[k - 1])
        invariant
            n == body@.len(),
            i <= k <= j <= n,
            spec_trim_end(body@.subrange(i as int, j as int)) == spec_trim_end(
                body@.subrange(i as int, k as int),
            ),
        decreases k,
    {
        proof {
            assert(body@.subrange(i as int, k as int).drop_last() =~= body@.subrange(
                i as int,
                k - 1,
            ));
        }
        k -= 1;
    }
    proof {
        if k > i {
            assert(!spec_is_ws(body@.subrange(i as int, k as int).last()));
        } else {
            assert(body@.subrange(i as int, i as int) =~= Seq::<u8>::empty());
        }
        assert(spec_trim_end(body@.subrange(i as int, k as int)) == body@.subrange(
            i as int,
            k as int,
        ));
    }
    let mut out: Vec<u8> = Vec::new();
    let mut t: usize = i;
    while t < k
        invariant
            n == body@.len(),
            i <= t <= k <= n,
            out@ == body@.subrange(i as int, t as int),
        decreases k - t,
    {
        out.push(body[t]);
        proof {
            assert(body@.subrange(i as int, t as int) + seq![body@[t as int]] =~= body@.subrange(
                i as int,
                t + 1,
            ));
        }
        t += 1;
    }
    Some(out)
}

} // verus!
