use vstd::prelude::*;

verus! {

/// Byte value of the ':' separator between a host name and a port.
pub const HOST_PORT_SEPARATOR: u8 = 58;

/// Result of replacing every occurrence of `p` in `h` by `r`, scanning
/// left to right without overlap: a match of `p` is replaced and skipped,
/// any other byte is kept. An empty pattern replaces nothing.
pub open spec fn replaced(h: Seq<u8>, p: Seq<u8>, r: Seq<u8>) -> Seq<u8>
    decreases h.len(),
{
    if p.len() == 0 || h.len() < p.len() {
        h
    } else if h.subrange(0, p.len() as int) == p {
        r + replaced(h.skip(p.len() as int), p, r)
    } else {
        seq![h[0]] + replaced(h.skip(1), p, r)
    }
}

/// The leading bytes of `s` up to, and not including, the first ':';
/// all of `s` when it has none.
pub open spec fn host_prefix_of(s: Seq<u8>) -> Seq<u8>
    decreases s.len(),
{
    if s.len() == 0 || s[0] == HOST_PORT_SEPARATOR {
        Seq::empty()
    } else {
        seq![s[0]] + host_prefix_of(s.skip(1))
    }
}

proof fn lemma_host_prefix_scan(s: Seq<u8>, i: int)
    requires
        0 <= i <= s.len(),
        forall|k: int| 0 <= k < i ==> s[k] != HOST_PORT_SEPARATOR,
        i == s.len() || s[i] == HOST_PORT_SEPARATOR,
    ensures
        host_prefix_of(s) == s.take(i),
    decreases i,
{
    if i == 0 {
        assert(host_prefix_of(s) =~= s.take(0));
    } else {
        assert(s[0] != HOST_PORT_SEPARATOR);
        lemma_host_prefix_scan(s.skip(1), i - 1);
        assert(host_prefix_of(s) =~= s.take(i));
    }
}

/// Compares two byte strings for equality.
pub fn bytes_eq(a: &[u8], b: &[u8]) -> (r: bool)
    ensures
        r == (a@ == b@),
{
    if a.len() != b.len() {
        return false;
    }
    let mut j: usize = 0;
    while j < a.len()
        invariant
            a@.len() == b@.len(),
            j <= a@.len(),
            forall|k: int| 0 <= k < j ==> a@[k] == b@[k],
        decreases a@.len() - j,
    {
        if a[j] != b[j] {
            return false;
        }
        j = j + 1;
    }
    proof {
        assert(a@ =~= b@);
    }
    true
}

/// Tests whether the bytes of `p` stand in `h` at offset `i`.
fn match_at(h: &Vec<u8>, p: &Vec<u8>, i: usize) -> (b: bool)
    requires
        i + p@.len() <= h@.len(),
    ensures
        b == (h@.subrange(i as int, i as int + p@.len() as int) == p@),
{
    let ghost sub = h@.subrange(i as int, i as int + p@.len() as int);
    let hlen: usize = h.len();
    let mut j: usize = 0;
    while j < p.len()
        invariant
            hlen == h@.len(),
            i + p@.len() <= h@.len(),
            j <= p@.len(),
            sub == h@.subrange(i as int, i as int + p@.len() as int),
            forall|k: int| 0 <= k < j ==> h@[i + k] == p@[k],
        decreases p@.len() - j,
    {
        if h[i + j] != p[j] {
            proof {
                assert(sub[j as int] != p@[j as int]);
            }
            return false;
        }
        j = j + 1;
    }
    proof {
        assert(sub =~= p@);
    }
    true
}

/// Replaces every occurrence of the pattern `p` in `h` by `r`, scanning
/// left to right without overlap.
pub fn replace_all(h: &Vec<u8>, p: &Vec<u8>, r: &Vec<u8>) -> (out: Vec<u8>)
    requires
        p@.len() >= 1,
    ensures
        out@ == replaced(h@, p@, r@),
{
    let mut out: Vec<u8> = Vec::new();
    let mut i: usize = 0;
    proof {
        assert(h@.skip(0) =~= h@);
        assert(out@ + replaced(h@, p@, r@) =~= replaced(h@, p@, r@));
    }
    while i < h.len()
        invariant
            p@.len() >= 1,
            i <= h@.len(),
            replaced(h@, p@, r@) == out@ + replaced(h@.skip(i as int), p@, r@),
        decreases h@.len() - i,
    {
        let ghost tail = h@.skip(i as int);
        if p.len() <= h.len() - i && match_at(h, p, i) {
            proof {
                assert(tail.subrange(0, p@.len() as int) =~= h@.subrange(
                    i as int,
                    i as int + p@.len() as int,
                ));
                assert(tail.skip(p@.len() as int) =~= h@.skip(i as int + p@.len() as int));
                assert(replaced(tail, p@, r@) == r@ + replaced(
                    h@.skip(i as int + p@.len() as int),
                    p@,
                    r@,
                ));
            }
            out.extend_from_slice(r.as_slice());
            proof {
                assert(replaced(h@, p@, r@) == out@ + replaced(
                    h@.skip(i as int + p@.len() as int),
                    p@,
                    r@,
                ));
            }
            i = i + p.len();
        } else {
            proof {
                assert(tail.len() >= 1);
                assert(tail.skip(1) =~= h@.skip(i as int + 1));
                assert(tail[0] == h@[i as int]);
                if tail.len() < p@.len() {
                    assert(replaced(tail, p@, r@) == tail);
                    assert(replaced(tail.skip(1), p@, r@) == tail.skip(1));
                    assert(tail =~= seq![tail[0]] + tail.skip(1));
                } else {
                    assert(tail.subrange(0, p@.len() as int) =~= h@.subrange(
                        i as int,
                        i as int + p@.len() as int,
                    ));
                    assert(tail.subrange(0, p@.len() as int) != p@);
                    assert(replaced(tail, p@, r@) == seq![tail[0]] + replaced(
                        tail.skip(1),
                        p@,
                        r@,
                    ));
                }
                assert(replaced(tail, p@, r@) == seq![h@[i as int]] + replaced(
                    h@.skip(i as int + 1),
                    p@,
                    r@,
                ));
            }
            let b = h[i];
            out.push(b);
            i = i + 1;
        }
    }
    proof {
        assert(h@.skip(i as int) =~= Seq::<u8>::empty());
        assert(replaced(Seq::<u8>::empty(), p@, r@) =~= Seq::<u8>::empty());
        assert(out@ + Seq::<u8>::empty() =~= out@);
    }
    out
}

/// Cuts any ':'-separated port off a Host header value, leaving the bare
/// host bytes.
pub fn host_prefix(host: &Vec<u8>) -> (out: Vec<u8>)
    ensures
        out@ == host_prefix_of(host@),
{
    let mut out: Vec<u8> = Vec::new();
    let mut i: usize = 0;
    while i < host.len() && host[i] != HOST_PORT_SEPARATOR
        invariant
            i <= host@.len(),
            out@ == host@.take(i as int),
            forall|k: int| 0 <= k < i ==> host@[k] != HOST_PORT_SEPARATOR,
        decreases host@.len() - i,
    {
        let b = host[i];
        out.push(b);
        proof {
            assert(out@ =~= host@.take(i as int + 1));
        }
        i = i + 1;
    }
    proof {
        lemma_host_prefix_scan(host@, i as int);
    }
    out
}

} // verus!
