//! Big-endian byte strings and the numbers they denote.

use vstd::prelude::*;

verus! {

/// `256` raised to the power `n`.
pub open spec fn pow256(n: nat) -> nat
    decreases n,
{
    if n == 0 {
        1
    } else {
        256 * pow256((n - 1) as nat)
    }
}

/// The number that the bytes `s` denote, most significant byte first.
pub open spec fn be_value(s: Seq<u8>) -> nat
    decreases s.len(),
{
    if s.len() == 0 {
        0
    } else {
        be_value(s.drop_last()) * 256 + s.last() as nat
    }
}

/// `2^128`, the weight of the high half of a 256-bit word.
pub open spec fn two_128() -> nat {
    0x1_0000_0000_0000_0000_0000_0000_0000_0000nat
}

pub proof fn lemma_pow256_positive(n: nat)
    ensures
        pow256(n) >= 1,
    decreases n,
{
    if n > 0 {
        lemma_pow256_positive((n - 1) as nat);
    }
}

pub proof fn lemma_pow256_adds(a: nat, b: nat)
    ensures
        pow256(a + b) == pow256(a) * pow256(b),
    decreases b,
{
    if b == 0 {
        assert(pow256(0) == 1);
        assert(a + b == a);
    } else {
        let b1 = (b - 1) as nat;
        lemma_pow256_adds(a, b1);
        let pa = pow256(a);
        let pb1 = pow256(b1);
        assert(pow256(a + b) == 256 * pow256(a + b1));
        assert(pow256(b) == 256 * pb1);
        assert(pa * (256 * pb1) == 256 * (pa * pb1)) by (nonlinear_arith);
    }
}

pub proof fn lemma_pow256_16()
    ensures
        pow256(16) == two_128(),
        pow256(15) * 256 == two_128(),
{
    reveal_with_fuel(pow256, 17);
}

pub proof fn lemma_pow256_32()
    ensures
        pow256(32) == two_128() * two_128(),
{
    lemma_pow256_16();
    lemma_pow256_adds(16, 16);
}

pub proof fn lemma_pow256_monotone(a: nat, b: nat)
    requires
        a <= b,
    ensures
        pow256(a) <= pow256(b),
    decreases b,
{
    if a < b {
        lemma_pow256_monotone(a, (b - 1) as nat);
        lemma_pow256_positive((b - 1) as nat);
    }
}

/// A big-endian number of `n` bytes is below `256^n`.
pub proof fn lemma_be_value_bound(s: Seq<u8>)
    ensures
        be_value(s) < pow256(s.len()),
    decreases s.len(),
{
    if s.len() > 0 {
        lemma_be_value_bound(s.drop_last());
        let p = pow256((s.len() - 1) as nat);
        let v = be_value(s.drop_last());
        assert(v * 256 + s.last() < p * 256) by (nonlinear_arith)
            requires
                v < p,
                s.last() < 256,
        ;
    }
}

/// The value of a concatenation: the left part shifted past the right part.
pub proof fn lemma_be_value_append(a: Seq<u8>, b: Seq<u8>)
    ensures
        be_value(a + b) == be_value(a) * pow256(b.len()) + be_value(b),
    decreases b.len(),
{
    if b.len() == 0 {
        assert(a + b =~= a);
        assert(pow256(0) == 1);
        assert(be_value(b) == 0);
    } else {
        let b0 = b.drop_last();
        lemma_be_value_append(a, b0);
        assert((a + b).drop_last() =~= a + b0);
        assert((a + b).last() == b.last());
        let va = be_value(a);
        let p = pow256(b0.len());
        let vb0 = be_value(b0);
        assert(be_value(a + b) == (va * p + vb0) * 256 + b.last());
        assert(be_value(b) == vb0 * 256 + b.last());
        assert(pow256(b.len()) == 256 * p);
        assert((va * p + vb0) * 256 + b.last() == va * (256 * p) + (vb0 * 256 + b.last()))
            by (nonlinear_arith);
    }
}

/// `n` zero bytes.
pub open spec fn zeros(n: nat) -> Seq<u8> {
    Seq::new(n, |i: int| 0u8)
}

/// Reads the `len <= 16` bytes `s[start..start + len]` as a big-endian number.
pub fn read_be(s: &[u8], start: usize, len: usize) -> (r: u128)
    requires
        len <= 16,
        start + len <= s@.len(),
    ensures
        r as nat == be_value(s@.subrange(start as int, start + len)),
{
    let mut acc: u128 = 0;
    let mut i: usize = 0;
    let n = s.len();
    while i < len
        invariant
            i <= len <= 16,
            n == s@.len(),
            start + len <= s@.len(),
            acc as nat == be_value(s@.subrange(start as int, start + i)),
        decreases len - i,
    {
        let ghost prefix = s@.subrange(start as int, start + i);
        proof {
            lemma_be_value_bound(prefix);
            lemma_pow256_monotone(i as nat, 15);
            lemma_pow256_16();
        }
        assert(start + i < s@.len());
        let b = s[start + i];
        assert(acc * 256 + b < two_128());
        acc = acc * 256 + b as u128;
        proof {
            let next = s@.subrange(start as int, start + i + 1);
            assert(next.drop_last() =~= prefix);
            assert(next.last() == b);
        }
        i = i + 1;
    }
    acc
}

/// Appends the `len` big-endian bytes of `x < 256^len` to `out`.
pub fn push_be(out: &mut Vec<u8>, x: u128, len: usize)
    requires
        len <= 16,
        (x as nat) < pow256(len as nat),
    ensures
        final(out)@.len() == old(out)@.len() + len,
        final(out)@.subrange(0, old(out)@.len() as int) == old(out)@,
        be_value(final(out)@.subrange(old(out)@.len() as int, old(out)@.len() + len)) == x as nat,
{
    let mut digits: Vec<u8> = Vec::new();
    let mut r: u128 = x;
    let mut k: usize = 0;
    proof {
        assert(pow256(0) == 1);
        assert(digits@.reverse() =~= Seq::<u8>::empty());
        assert(be_value(Seq::<u8>::empty()) == 0);
        lemma_pow256_16();
    }
    // digits holds the k least significant bytes, least significant first
    while k < len
        invariant
            k <= len <= 16,
            digits@.len() == k,
            x as nat == r as nat * pow256(k as nat) + be_value(digits@.reverse()),
            r as nat * pow256(k as nat) < pow256(len as nat),
        decreases len - k,
    {
        let d: u8 = (r % 256) as u8;
        let q: u128 = r / 256;
        let ghost old_digits = digits@;
        digits.push(d);
        proof {
            let p = pow256(k as nat);
            let rev_old = old_digits.reverse();
            assert(digits@.reverse() =~= seq![d] + rev_old);
            lemma_be_value_append(seq![d], rev_old);
            assert(be_value(seq![d]) == d as nat) by {
                assert(seq![d].drop_last() =~= Seq::<u8>::empty());
                assert(be_value(Seq::<u8>::empty()) == 0);
            }
            assert(rev_old.len() == k);
            assert(r as nat == q as nat * 256 + d as nat);
            assert(r as nat * p == q as nat * (256 * p) + d as nat * p) by (nonlinear_arith)
                requires
                    r as nat == q as nat * 256 + d as nat,
            ;
            assert(q as nat * (256 * p) <= r as nat * p) by (nonlinear_arith)
                requires
                    r as nat == q as nat * 256 + d as nat,
                    p >= 0,
            ;
        }
        r = q;
        k = k + 1;
    }
    proof {
        lemma_pow256_positive(len as nat);
        assert(r == 0) by {
            if r > 0 {
                assert(r as nat * pow256(len as nat) >= pow256(len as nat)) by (nonlinear_arith)
                    requires
                        r as nat >= 1,
                ;
            }
        }
        assert(x as nat == be_value(digits@.reverse()));
    }
    let ghost start = out@.len();
    let mut j: usize = 0;
    while j < len
        invariant
            j <= len <= 16,
            digits@.len() == len,
            out@.len() == start + j,
            out@.subrange(0, start as int) == old(out)@,
            start == old(out)@.len(),
            out@.subrange(start as int, start + j) =~= digits@.reverse().subrange(0, j as int),
        decreases len - j,
    {
        out.push(digits[len - 1 - j]);
        proof {
            assert(out@.subrange(0, start as int) =~= old(out)@);
            assert(out@.subrange(start as int, start + j + 1) =~= digits@.reverse().subrange(
                0,
                j + 1,
            ));
        }
        j = j + 1;
    }
    assert(digits@.reverse().subrange(0, len as int) =~= digits@.reverse());
}

} // verus!
