//! 256-bit unsigned integers, the EVM word.

use vstd::prelude::*;

use crate::bytes::{
    be_value, lemma_be_value_append, lemma_be_value_bound, lemma_pow256_16, lemma_pow256_32,
    push_be, read_be, two_128,
};

verus! {

/// The largest value of a 256-bit word: `2^256 - 1`.
pub open spec fn u256_max() -> nat {
    (two_128() * two_128() - 1) as nat
}

/// A 256-bit unsigned integer, held as its high and low 128-bit halves.
#[derive(Clone, Copy, Debug, PartialEq, Eq, Hash, Structural)]
pub struct Uint256 {
    pub hi: u128,
    pub lo: u128,
}

impl View for Uint256 {
    type V = nat;

    open spec fn view(&self) -> nat {
        self.hi as nat * two_128() + self.lo as nat
    }
}

/// Every word denotes a number of at most `2^256 - 1`.
pub proof fn lemma_uint256_bound(x: Uint256)
    ensures
        x@ <= u256_max(),
{
    let h = x.hi as nat;
    let l = x.lo as nat;
    let t = two_128();
    assert(h * t + l <= (t - 1) * t + (t - 1)) by (nonlinear_arith)
        requires
            h <= t - 1,
            l <= t - 1,
    ;
    assert((t - 1) * t + (t - 1) == t * t - 1) by (nonlinear_arith);
}

/// Two words with the same value are the same word.
pub proof fn lemma_uint256_injective(x: Uint256, y: Uint256)
    requires
        x@ == y@,
    ensures
        x == y,
{
    let t = two_128();
    let (xh, xl, yh, yl) = (x.hi as int, x.lo as int, y.hi as int, y.lo as int);
    assert(xh == yh && xl == yl) by (nonlinear_arith)
        requires
            xh * t + xl == yh * t + yl,
            0 <= xl < t,
            0 <= yl < t,
            0 <= xh,
            0 <= yh,
            t == two_128(),
    ;
}

/// The word whose value is `v`.
pub open spec fn uint256_of(v: nat) -> Uint256
    recommends
        v <= u256_max(),
{
    Uint256 { hi: (v / two_128()) as u128, lo: (v % two_128()) as u128 }
}

pub proof fn lemma_uint256_of(v: nat)
    requires
        v <= u256_max(),
    ensures
        uint256_of(v)@ == v,
{
    let t = two_128();
    assert(v / t < t && v == (v / t) * t + v % t && v % t < t) by (nonlinear_arith)
        requires
            v <= t * t - 1,
            t == two_128(),
    ;
}

/// The sum, where it fits in 256 bits.
pub open spec fn spec_checked_add(a: Uint256, b: Uint256) -> Option<Uint256> {
    if a@ + b@ <= u256_max() {
        Some(uint256_of(a@ + b@))
    } else {
        None
    }
}

/// The difference, where it is not negative.
pub open spec fn spec_checked_sub(a: Uint256, b: Uint256) -> Option<Uint256> {
    if b@ <= a@ {
        Some(uint256_of((a@ - b@) as nat))
    } else {
        None
    }
}

/// The sum, capped at `2^256 - 1`.
pub open spec fn spec_saturating_add(a: Uint256, b: Uint256) -> Uint256 {
    if a@ + b@ <= u256_max() {
        uint256_of(a@ + b@)
    } else {
        uint256_of(u256_max())
    }
}

/// The difference, floored at `0`.
pub open spec fn spec_saturating_sub(a: Uint256, b: Uint256) -> Uint256 {
    if b@ <= a@ {
        uint256_of((a@ - b@) as nat)
    } else {
        uint256_of(0)
    }
}

/// A word is the word of its value.
pub proof fn lemma_uint256_of_view(x: Uint256)
    ensures
        uint256_of(x@) == x,
{
    lemma_uint256_bound(x);
    lemma_uint256_of(x@);
    lemma_uint256_injective(uint256_of(x@), x);
}

impl Uint256 {
    pub fn zero() -> (r: Uint256)
        ensures
            r@ == 0,
    {
        Uint256 { hi: 0, lo: 0 }
    }

    /// `2^256 - 1`, the largest word.
    pub fn max_value() -> (r: Uint256)
        ensures
            r@ == u256_max(),
    {
        let r = Uint256 { hi: u128::MAX, lo: u128::MAX };
        assert(r@ == u256_max()) by (nonlinear_arith)
            requires
                r.hi == two_128() - 1,
                r.lo == two_128() - 1,
        ;
        r
    }

    pub fn from_u128(x: u128) -> (r: Uint256)
        ensures
            r@ == x as nat,
    {
        Uint256 { hi: 0, lo: x }
    }

    pub fn is_max(&self) -> (b: bool)
        ensures
            b == (self@ == u256_max()),
    {
        proof {
            lemma_uint256_bound(*self);
            let t = two_128();
            let (h, l) = (self.hi as int, self.lo as int);
            assert((h == t - 1 && l == t - 1) <==> h * t + l == t * t - 1) by (nonlinear_arith)
                requires
                    0 <= h < t,
                    0 <= l < t,
                    t == two_128(),
            ;
        }
        self.hi == u128::MAX && self.lo == u128::MAX
    }

    /// `self < other`.
    pub fn lt(&self, other: &Uint256) -> (b: bool)
        ensures
            b == (self@ < other@),
    {
        proof {
            let t = two_128();
            let (h1, l1, h2, l2) = (self.hi as int, self.lo as int, other.hi as int, other.lo as int);
            assert((h1 < h2 || (h1 == h2 && l1 < l2)) <==> h1 * t + l1 < h2 * t + l2)
                by (nonlinear_arith)
                requires
                    0 <= l1 < t,
                    0 <= l2 < t,
                    t == two_128(),
            ;
        }
        self.hi < other.hi || (self.hi == other.hi && self.lo < other.lo)
    }

    /// The sum, or `None` where it does not fit in 256 bits.
    pub fn checked_add(&self, other: &Uint256) -> (r: Option<Uint256>)
        ensures
            match r {
                Some(s) => s@ == self@ + other@,
                None => self@ + other@ > u256_max(),
            },
            r == spec_checked_add(*self, *other),
    {
        let t = Ghost(two_128());
        let (lo, carry) = if self.lo > u128::MAX - other.lo {
            (self.lo - (u128::MAX - other.lo) - 1, 1u128)
        } else {
            (self.lo + other.lo, 0u128)
        };
        assert(self.lo + other.lo == lo + carry * t@);
        if self.hi > u128::MAX - other.hi || (self.hi == u128::MAX - other.hi && carry == 1) {
            proof {
                let (h1, h2) = (self.hi as int, other.hi as int);
                assert(h1 + h2 + carry >= t@);
                assert(self@ + other@ == (h1 + h2) * t@ + lo + carry * t@) by (nonlinear_arith)
                    requires
                        self@ == h1 * t@ + self.lo,
                        other@ == h2 * t@ + other.lo,
                        self.lo + other.lo == lo + carry * t@,
                ;
                assert((h1 + h2 + carry) * t@ >= t@ * t@) by (nonlinear_arith)
                    requires
                        h1 + h2 + carry >= t@,
                        t@ > 0,
                ;
                assert((h1 + h2) * t@ + carry * t@ == (h1 + h2 + carry) * t@) by (nonlinear_arith);
            }
            None
        } else {
            let hi = self.hi + other.hi + carry;
            let r = Uint256 { hi, lo };
            proof {
                let (h1, h2) = (self.hi as int, other.hi as int);
                assert(r@ == self@ + other@) by (nonlinear_arith)
                    requires
                        r@ == (h1 + h2 + carry) * t@ + lo,
                        self@ == h1 * t@ + self.lo,
                        other@ == h2 * t@ + other.lo,
                        self.lo + other.lo == lo + carry * t@,
                ;
                lemma_uint256_of_view(r);
            }
            Some(r)
        }
    }

    /// `self - other`, for `other <= self`.
    pub fn sub(&self, other: &Uint256) -> (r: Uint256)
        requires
            other@ <= self@,
        ensures
            r@ == self@ - other@,
            r == uint256_of((self@ - other@) as nat),
    {
        let t = Ghost(two_128());
        let (h1, l1, h2, l2) = (
            Ghost(self.hi as int),
            Ghost(self.lo as int),
            Ghost(other.hi as int),
            Ghost(other.lo as int),
        );
        if self.lo >= other.lo {
            assert(h2@ <= h1@) by (nonlinear_arith)
                requires
                    h2@ * t@ + l2@ <= h1@ * t@ + l1@,
                    0 <= l1@ < t@,
                    0 <= l2@ < t@,
            ;
            let r = Uint256 { hi: self.hi - other.hi, lo: self.lo - other.lo };
            assert(r@ == self@ - other@) by (nonlinear_arith)
                requires
                    r@ == (h1@ - h2@) * t@ + (l1@ - l2@),
                    self@ == h1@ * t@ + l1@,
                    other@ == h2@ * t@ + l2@,
            ;
            proof {
                lemma_uint256_of_view(r);
            }
            r
        } else {
            assert(h2@ < h1@) by (nonlinear_arith)
                requires
                    h2@ * t@ + l2@ <= h1@ * t@ + l1@,
                    0 <= l1@ < l2@ < t@,
            ;
            let lo = u128::MAX - (other.lo - self.lo) + 1;
            let r = Uint256 { hi: self.hi - other.hi - 1, lo };
            assert(r@ == self@ - other@) by (nonlinear_arith)
                requires
                    r@ == (h1@ - h2@ - 1) * t@ + (t@ - (l2@ - l1@)),
                    self@ == h1@ * t@ + l1@,
                    other@ == h2@ * t@ + l2@,
            ;
            proof {
                lemma_uint256_of_view(r);
            }
            r
        }
    }

    /// The difference, or `None` where `other > self`.
    pub fn checked_sub(&self, other: &Uint256) -> (r: Option<Uint256>)
        ensures
            match r {
                Some(d) => other@ <= self@ && d@ == self@ - other@,
                None => self@ < other@,
            },
            r == spec_checked_sub(*self, *other),
    {
        if self.lt(other) {
            None
        } else {
            let d = self.sub(other);
            proof {
                lemma_uint256_of_view(d);
            }
            Some(d)
        }
    }

    /// The sum, or `2^256 - 1` where it does not fit.
    pub fn saturating_add(&self, other: &Uint256) -> (r: Uint256)
        ensures
            r@ == if self@ + other@ > u256_max() {
                u256_max()
            } else {
                self@ + other@
            },
            r == spec_saturating_add(*self, *other),
    {
        match self.checked_add(other) {
            Some(s) => s,
            None => {
                let m = Uint256::max_value();
                proof {
                    lemma_uint256_of_view(m);
                }
                m
            },
        }
    }

    /// The difference, or `0` where `other > self`.
    pub fn saturating_sub(&self, other: &Uint256) -> (r: Uint256)
        ensures
            r@ == if self@ < other@ {
                0
            } else {
                self@ - other@
            },
            r == spec_saturating_sub(*self, *other),
    {
        match self.checked_sub(other) {
            Some(d) => d,
            None => {
                let z = Uint256::zero();
                proof {
                    lemma_uint256_of_view(z);
                }
                z
            },
        }
    }

    /// Reads the big-endian word `s[start..start + 32]`.
    pub fn from_be_slice(s: &[u8], start: usize) -> (r: Uint256)
        requires
            start + 32 <= s@.len(),
        ensures
            r@ == be_value(s@.subrange(start as int, start + 32)),
    {
        let n = s.len();
        assert(start + 16 < n);
        let hi = read_be(s, start, 16);
        let lo = read_be(s, start + 16, 16);
        proof {
            let a = s@.subrange(start as int, start + 16);
            let b = s@.subrange(start + 16, start + 32);
            assert(s@.subrange(start as int, start + 32) =~= a + b);
            lemma_be_value_append(a, b);
            lemma_pow256_16();
        }
        Uint256 { hi, lo }
    }

    /// The 32 big-endian bytes of the word.
    pub fn to_be_bytes(&self) -> (out: Vec<u8>)
        ensures
            out@.len() == 32,
            be_value(out@) == self@,
    {
        let mut out: Vec<u8> = Vec::new();
        proof {
            lemma_pow256_16();
        }
        push_be(&mut out, self.hi, 16);
        let ghost first = out@;
        assert(first.subrange(0, 16) =~= first);
        push_be(&mut out, self.lo, 16);
        proof {
            let a = out@.subrange(0, 16);
            let b = out@.subrange(16, 32);
            assert(out@ =~= a + b);
            lemma_be_value_append(a, b);
            lemma_pow256_16();
        }
        out
    }
}

/// A word read from 32 big-endian bytes is written back as the same bytes.
pub proof fn lemma_be_bytes_unique(a: Seq<u8>, b: Seq<u8>)
    requires
        a.len() == b.len(),
        be_value(a) == be_value(b),
    ensures
        a == b,
    decreases a.len(),
{
    if a.len() > 0 {
        let (va, vb) = (be_value(a.drop_last()), be_value(b.drop_last()));
        let (la, lb) = (a.last() as int, b.last() as int);
        assert(va == vb && la == lb) by (nonlinear_arith)
            requires
                va * 256 + la == vb * 256 + lb,
                0 <= la < 256,
                0 <= lb < 256,
                va >= 0,
                vb >= 0,
        ;
        lemma_be_bytes_unique(a.drop_last(), b.drop_last());
        assert(a =~= a.drop_last().push(a.last()));
        assert(b =~= b.drop_last().push(b.last()));
    } else {
        assert(a =~= b);
    }
}

/// Any 32 bytes denote a value that a word can hold.
pub proof fn lemma_word_fits(s: Seq<u8>)
    requires
        s.len() == 32,
    ensures
        be_value(s) <= u256_max(),
{
    lemma_be_value_bound(s);
    lemma_pow256_32();
}

} // verus!
