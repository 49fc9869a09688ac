//! Verified operations on byte strings (`Vec<u8>`): copying, concatenation,
//! and replacement of every occurrence of a pattern. Paths and diagnostic
//! text run through these when a response is built.

use vstd::prelude::*;

verus! {

/// `replace_seq(h, n, r)` is `h` with every occurrence of the pattern `n`
/// replaced by `r`, scanning left to right and never rescanning replaced
/// text. An empty pattern matches nowhere, so it leaves `h` unchanged.
pub open spec fn replace_seq(h: Seq<u8>, n: Seq<u8>, r: Seq<u8>) -> Seq<u8>
    decreases h.len(),
{
    if h.len() == 0 {
        Seq::empty()
    } else if 0 < n.len() && n.len() <= h.len() && h.subrange(0, n.len() as int) == n {
        r + replace_seq(h.skip(n.len() as int), n, r)
    } else {
        seq![h[0]] + replace_seq(h.skip(1), n, r)
    }
}

/// Whether the pattern `n` occurs in `h` at position `i`.
pub open spec fn occurs_at(h: Seq<u8>, n: Seq<u8>, i: int) -> bool {
    0 <= i && i + n.len() <= h.len() && h.subrange(i, i + n.len()) == n
}

/// Whether the pattern `n` occurs anywhere in `h`.
pub open spec fn occurs(h: Seq<u8>, n: Seq<u8>) -> bool {
    exists|i: int| occurs_at(h, n, i)
}

/// Replacement of a pattern that never occurs leaves the text unchanged.
pub proof fn lemma_replace_absent(h: Seq<u8>, n: Seq<u8>, r: Seq<u8>)
    requires
        !occurs(h, n),
    ensures
        replace_seq(h, n, r) == h,
    decreases h.len(),
{
    if h.len() == 0 {
        assert(replace_seq(h, n, r) =~= h);
    } else {
        assert(!(0 < n.len() && n.len() <= h.len() && h.subrange(0, n.len() as int) == n)) by {
            if 0 < n.len() && n.len() <= h.len() && h.subrange(0, n.len() as int) == n {
                assert(occurs_at(h, n, 0));
            }
        }
        assert(!occurs(h.skip(1), n)) by {
            if occurs(h.skip(1), n) {
                let i = choose|i: int| occurs_at(h.skip(1), n, i);
                assert(h.subrange(i + 1, i + 1 + n.len()) =~= h.skip(1).subrange(i, i + n.len()));
                assert(occurs_at(h, n, i + 1));
            }
        }
        lemma_replace_absent(h.skip(1), n, r);
        assert(replace_seq(h, n, r) =~= h);
    }
}

/// Copy of a byte string.
pub fn copy_bytes(v: &Vec<u8>) -> (out: Vec<u8>)
    ensures
        out@ == v@,
{
    let mut out: Vec<u8> = Vec::new();
    let mut i: usize = 0;
    while i < v.len()
        invariant
            i <= v.len(),
            out@ == v@.subrange(0, i as int),
        decreases v.len() - i,
    {
        out.push(v[i]);
        i = i + 1;
        proof {
            assert(out@ =~= v@.subrange(0, i as int));
        }
    }
    proof {
        assert(out@ =~= v@);
    }
    out
}

/// Append the whole of `src` to `dst`.
pub fn push_all(dst: &mut Vec<u8>, src: &Vec<u8>)
    ensures
        final(dst)@ == old(dst)@ + src@,
{
    let mut i: usize = 0;
    while i < src.len()
        invariant
            i <= src.len(),
            dst@ == old(dst)@ + src@.subrange(0, i as int),
        decreases src.len() - i,
    {
        dst.push(src[i]);
        i = i + 1;
        proof {
            assert(dst@ =~= old(dst)@ + src@.subrange(0, i as int));
        }
    }
    proof {
        assert(dst@ =~= old(dst)@ + src@);
    }
}

/// Concatenation of two byte strings.
pub fn concat_bytes(a: &Vec<u8>, b: &Vec<u8>) -> (out: Vec<u8>)
    ensures
        out@ == a@ + b@,
{
    let mut out = copy_bytes(a);
    push_all(&mut out, b);
    out
}

/// Copy of the byte range `[a, b)` of `v`.
pub fn copy_range(v: &Vec<u8>, a: usize, b: usize) -> (out: Vec<u8>)
    requires
        a <= b <= v@.len(),
    ensures
        out@ == v@.subrange(a as int, b as int),
{
    let mut out: Vec<u8> = Vec::new();
    let mut i: usize = a;
    while i < b
        invariant
            a <= i <= b <= v@.len(),
            out@ == v@.subrange(a as int, i as int),
        decreases b - i,
    {
        out.push(v[i]);
        i = i + 1;
        proof {
            assert(out@ =~= v@.subrange(a as int, i as int));
        }
    }
    out
}

/// Whether two byte strings hold the same bytes.
pub fn bytes_eq(a: &Vec<u8>, b: &Vec<u8>) -> (r: bool)
    ensures
        r == (a@ == b@),
{
    if a.len() != b.len() {
        return false;
    }
    let mut i: usize = 0;
    while i < a.len()
        invariant
            i <= a.len(),
            a@.len() == b@.len(),
            forall|k: int| 0 <= k < i ==> a@[k] == b@[k],
        decreases a.len() - i,
    {
        if a[i] != b[i] {
            return false;
        }
        i = i + 1;
    }
    proof {
        assert(a@ =~= b@);
    }
    true
}

/// Whether the pattern `n` occurs in `h` starting at index `i`.
fn matches_at(h: &Vec<u8>, i: usize, n: &Vec<u8>) -> (b: bool)
    requires
        i <= h@.len(),
    ensures
        b == (n@.len() <= h@.len() - i && h@.subrange(i as int, i + n@.len()) == n@),
{
    if n.len() > h.len() - i {
        return false;
    }
    let mut j: usize = 0;
    while j < n.len()
        invariant
            j <= n.len(),
            i + n.len() <= h.len(),
            forall|k: int| 0 <= k < j ==> h@[i + k] == n@[k],
        decreases n.len() - j,
    {
        if h[i + j] != n[j] {
            proof {
                assert(h@.subrange(i as int, i + n@.len())[j as int] != n@[j as int]);
            }
            return false;
        }
        j = j + 1;
    }
    proof {
        assert(h@.subrange(i as int, i + n@.len()) =~= n@);
    }
    true
}

/// `h` with every occurrence of `n` replaced by `r`, per `replace_seq`.
pub fn replace_all(h: &Vec<u8>, n: &Vec<u8>, r: &Vec<u8>) -> (out: Vec<u8>)
    ensures
        out@ == replace_seq(h@, n@, r@),
{
    let mut out: Vec<u8> = Vec::new();
    let mut i: usize = 0;
    proof {
        assert(h@.skip(0) =~= h@);
        assert(out@ + replace_seq(h@, n@, r@) =~= replace_seq(h@, n@, r@));
    }
    while i < h.len()
        invariant
            i <= h.len(),
            out@ + replace_seq(h@.skip(i as int), n@, r@) == replace_seq(h@, n@, r@),
        decreases h.len() - i,
    {
        let ghost pre = out@;
        let ghost rest = h@.skip(i as int);
        if n.len() > 0 && matches_at(h, i, n) {
            proof {
                assert(rest.len() > 0);
                assert(rest.subrange(0, n@.len() as int) =~= h@.subrange(
                    i as int,
                    i + n@.len(),
                ));
                assert(replace_seq(rest, n@, r@) == r@ + replace_seq(
                    rest.skip(n@.len() as int),
                    n@,
                    r@,
                ));
                assert(rest.skip(n@.len() as int) =~= h@.skip(i + n@.len()));
            }
            push_all(&mut out, r);
            i = i + n.len();
            proof {
                assert(out@ + replace_seq(h@.skip(i as int), n@, r@) =~= pre + replace_seq(
                    rest,
                    n@,
                    r@,
                ));
            }
        } else {
            proof {
                assert(rest.len() > 0);
                assert(!(0 < n@.len() && n@.len() <= rest.len() && rest.subrange(
                    0,
                    n@.len() as int,
                ) == n@)) by {
                    if 0 < n@.len() && n@.len() <= rest.len() {
                        assert(rest.subrange(0, n@.len() as int) =~= h@.subrange(
                            i as int,
                            i + n@.len(),
                        ));
                    }
                }
                assert(replace_seq(rest, n@, r@) == seq![rest[0]] + replace_seq(
                    rest.skip(1),
                    n@,
                    r@,
                ));
                assert(rest[0] == h@[i as int]);
                assert(rest.skip(1) =~= h@.skip(i + 1));
            }
            out.push(h[i]);
            i = i + 1;
            proof {
                assert(out@ + replace_seq(h@.skip(i as int), n@, r@) =~= pre + replace_seq(
                    rest,
                    n@,
                    r@,
                ));
            }
        }
    }
    proof {
        assert(h@.skip(i as int) =~= Seq::<u8>::empty());
        assert(replace_seq(Seq::<u8>::empty(), n@, r@) == Seq::<u8>::empty());
        assert(out@ + Seq::<u8>::empty() =~= out@);
    }
    out
}

} // verus!
