//! Small helpers for appending bytes to a frame buffer.

use vstd::prelude::*;

verus! {

/// Appends every byte of `s` to `v`, in order.
pub fn push_slice(v: &mut Vec<u8>, s: &[u8])
    ensures
        final(v)@ == old(v)@ + s@,
{
    let n = s.len();
    let mut i: usize = 0;
    while i < n
        invariant
            n == s@.len(),
            i <= n,
            v@ == old(v)@ + s@.take(i as int),
        decreases n - i,
    {
        v.push(s[i]);
        proof {
            assert(s@.take(i + 1) =~= s@.take(i as int).push(s@[i as int]));
        }
        i = i + 1;
    }
    proof {
        assert(s@.take(n as int) =~= s@);
    }
}

/// Appends `count` zero bytes to `v`.
pub fn push_zeros(v: &mut Vec<u8>, count: usize)
    ensures
        final(v)@ == old(v)@ + Seq::new(count as nat, |i: int| 0u8),
{
    let mut i: usize = 0;
    while i < count
        invariant
            i <= count,
            v@ == old(v)@ + Seq::new(i as nat, |j: int| 0u8),
        decreases count - i,
    {
        v.push(0u8);
        proof {
            assert(Seq::new((i + 1) as nat, |j: int| 0u8)
                =~= Seq::new(i as nat, |j: int| 0u8).push(0u8));
        }
        i = i + 1;
    }
}

/// Compares the bytes of `s` starting at `off` with `a`.
pub fn eq_at(s: &[u8], off: usize, a: &[u8]) -> (r: bool)
    requires
        off + a@.len() <= s@.len(),
    ensures
        r <==> s@.subrange(off as int, off + a@.len()) == a@,
{
    let n = a.len();
    let m = s.len();
    let mut i: usize = 0;
    while i < n
        invariant
            n == a@.len(),
            m == s@.len(),
            off + n <= m,
            i <= n,
            forall|j: int| 0 <= j < i ==> s@[off + j] == a@[j],
        decreases n - i,
    {
        if s[off + i] != a[i] {
            proof {
                assert(s@.subrange(off as int, off + a@.len())[i as int] == s@[off + i]);
            }
            return false;
        }
        i = i + 1;
    }
    proof {
        assert(s@.subrange(off as int, off + a@.len()) =~= a@);
    }
    true
}

/// Appends the two big-endian bytes of `x` to `v`.
pub fn push_u16_be(v: &mut Vec<u8>, x: u16)
    ensures
        final(v)@ == old(v)@ + seq![(x / 256) as u8, (x % 256) as u8],
{
    v.push((x / 256) as u8);
    v.push((x % 256) as u8);
    proof {
        assert(v@ =~= old(v)@ + seq![(x / 256) as u8, (x % 256) as u8]);
    }
}

} // verus!
