//! Byte-level helpers: big-endian numbers, copies and zero-terminated fields.

use vstd::prelude::*;

verus! {

/// `256^n`.
pub open spec fn pow256(n: nat) -> nat
    decreases n,
{
    if n == 0 {
        1
    } else {
        256 * pow256((n - 1) as nat)
    }
}

/// The unsigned big-endian number that the bytes spell.
pub open spec fn be_value(s: Seq<u8>) -> nat
    decreases s.len(),
{
    if s.len() == 0 {
        0
    } else {
        be_value(s.drop_last()) * 256 + s.last() as nat
    }
}

/// The first index at or after `from` that holds a zero byte.
pub open spec fn find_zero(s: Seq<u8>, from: nat) -> Option<nat>
    decreases s.len() - from,
{
    if from >= s.len() {
        None
    } else if s[from as int] == 0 {
        Some(from)
    } else {
        find_zero(s, from + 1)
    }
}

pub proof fn lemma_be_value_bound(s: Seq<u8>)
    ensures
        be_value(s) < pow256(s.len()),
    decreases s.len(),
{
    if s.len() > 0 {
        lemma_be_value_bound(s.drop_last());
        let a = be_value(s.drop_last());
        let p = pow256((s.len() - 1) as nat);
        let l = s.last() as nat;
        assert(a * 256 + l < p * 256) by (nonlinear_arith)
            requires
                a < p,
                l < 256,
        ;
    }
}

proof fn lemma_pow256_monotone(i: nat, j: nat)
    requires
        i <= j,
    ensures
        pow256(i) <= pow256(j),
    decreases j - i,
{
    if i < j {
        lemma_pow256_monotone(i, (j - 1) as nat);
    }
}

/// Reads `n` bytes from `start` as an unsigned big-endian number.
pub fn read_be(buf: &[u8], start: usize, n: usize) -> (r: u128)
    requires
        n <= 16,
        start + n <= buf@.len(),
    ensures
        r == be_value(buf@.subrange(start as int, start + n)),
        r < pow256(n as nat),
{
    let len = buf.len();
    let mut v: u128 = 0;
    let mut i: usize = 0;
    proof {
        reveal_with_fuel(pow256, 17);
        assert(buf@.subrange(start as int, start as int) =~= Seq::<u8>::empty());
    }
    while i < n
        invariant
            i <= n <= 16,
            start + n <= buf@.len(),
            len == buf@.len(),
            v == be_value(buf@.subrange(start as int, start + i)),
            v < pow256(i as nat),
        decreases n - i,
    {
        proof {
            lemma_pow256_monotone(i as nat, 15);
            reveal_with_fuel(pow256, 17);
            assert(pow256(15) * 256 == 0x1_0000_0000_0000_0000_0000_0000_0000_0000);
            let p = pow256(i as nat);
            assert((v as nat) * 256 + 255 < p * 256) by (nonlinear_arith)
                requires
                    v < p,
            ;
            assert(p * 256 <= pow256(15) * 256) by (nonlinear_arith)
                requires
                    p <= pow256(15),
            ;
        }
        let b = buf[start + i];
        v = v * 256 + b as u128;
        proof {
            let s = buf@.subrange(start as int, start + i + 1);
            assert(s.drop_last() =~= buf@.subrange(start as int, start + i));
            lemma_be_value_bound(s);
        }
        i = i + 1;
    }
    v
}

/// A copy of `buf[from..to]`.
pub fn copy_range(buf: &[u8], from: usize, to: usize) -> (r: Vec<u8>)
    requires
        from <= to <= buf@.len(),
    ensures
        r@ == buf@.subrange(from as int, to as int),
{
    let mut out: Vec<u8> = Vec::new();
    let mut i: usize = from;
    while i < to
        invariant
            from <= i <= to <= buf@.len(),
            out@ == buf@.subrange(from as int, i as int),
        decreases to - i,
    {
        out.push(buf[i]);
        proof {
            assert(out@ =~= buf@.subrange(from as int, i + 1));
        }
        i = i + 1;
    }
    out
}

/// The index of the first zero byte at or after `from`, if there is one.
pub fn position_of_zero(buf: &[u8], from: usize) -> (r: Option<usize>)
    requires
        from <= buf@.len(),
    ensures
        r matches Some(i) ==> find_zero(buf@, from as nat) == Some(i as nat),
        r is None ==> find_zero(buf@, from as nat) is None,
{
    let mut i: usize = from;
    while i < buf.len()
        invariant
            from <= i <= buf@.len(),
            find_zero(buf@, from as nat) == find_zero(buf@, i as nat),
        decreases buf@.len() - i,
    {
        if buf[i] == 0 {
            return Some(i);
        }
        i = i + 1;
    }
    None
}

} // verus!
