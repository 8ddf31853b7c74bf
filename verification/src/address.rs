//! 20-byte account addresses.

use vstd::prelude::*;

use crate::bytes::{
    be_value, lemma_be_value_append, lemma_be_value_bound, lemma_pow256_16, pow256, push_be,
    read_be, two_128,
};
use crate::uint256::Uint256;

verus! {

/// `2^160`, one more than the largest address.
pub open spec fn two_160() -> nat {
    0x1_0000_0000_0000_0000_0000_0000_0000_0000_0000_0000nat
}

/// An account address: the 32 high bits and the 128 low bits of a 160-bit number.
#[derive(Clone, Copy, Debug, PartialEq, Eq, Hash, Structural)]
pub struct Address {
    pub hi: u32,
    pub lo: u128,
}

impl View for Address {
    type V = nat;

    open spec fn view(&self) -> nat {
        self.hi as nat * two_128() + self.lo as nat
    }
}

/// The address of the native token contract, `0x…0805`.
pub open spec fn spec_native_token_address() -> Address {
    Address { hi: 0, lo: 0x805 }
}

/// The administrator address `0xf39Fd6e51aad88F6F4ce6aB8827279cffFb92266`.
pub open spec fn spec_admin_address() -> Address {
    Address { hi: 0xf39fd6e5, lo: 0x1aad88f6f4ce6ab8827279cfffb92266 }
}

/// The zero address.
pub open spec fn spec_zero_address() -> Address {
    Address { hi: 0, lo: 0 }
}

/// The address held in the low 160 bits of a word.
pub open spec fn spec_address_from_word(w: Uint256) -> Address {
    Address { hi: (w.hi % 0x1_0000_0000) as u32, lo: w.lo }
}

/// The word whose value is the address.
pub open spec fn spec_address_word(a: Address) -> Uint256 {
    Uint256 { hi: a.hi as u128, lo: a.lo }
}

/// The word of an address has the address's value, and reading the address back gives it.
pub proof fn lemma_address_word_roundtrip(a: Address)
    ensures
        spec_address_word(a)@ == a@,
        spec_address_from_word(spec_address_word(a)) == a,
{
}

/// Reading an address from a word keeps the word's value modulo `2^160`.
pub proof fn lemma_address_from_word_value(w: Uint256)
    ensures
        spec_address_from_word(w)@ == w@ % two_160(),
{
    let t = two_128();
    let h = w.hi as int;
    let l = w.lo as int;
    let q = h / 0x1_0000_0000;
    let r = h % 0x1_0000_0000;
    assert(h * t + l == q * two_160() + (r * t + l)) by (nonlinear_arith)
        requires
            h == q * 0x1_0000_0000 + r,
            two_160() == 0x1_0000_0000 * t,
    ;
    assert(0 <= r * t + l < two_160()) by (nonlinear_arith)
        requires
            0 <= r < 0x1_0000_0000,
            0 <= l < t,
            two_160() == 0x1_0000_0000 * t,
    ;
    assert((h * t + l) % (two_160() as int) == r * t + l) by (nonlinear_arith)
        requires
            h * t + l == q * two_160() + (r * t + l),
            0 <= r * t + l < two_160(),
            q >= 0,
    ;
}

impl Address {
    /// The native token contract, `0x0000000000000000000000000000000000000805`.
    pub fn native_token() -> (a: Address)
        ensures
            a == spec_native_token_address(),
    {
        Address { hi: 0, lo: 0x805 }
    }

    /// The administrator, `0xf39Fd6e51aad88F6F4ce6aB8827279cffFb92266`.
    pub fn admin() -> (a: Address)
        ensures
            a == spec_admin_address(),
    {
        Address { hi: 0xf39fd6e5, lo: 0x1aad88f6f4ce6ab8827279cfffb92266 }
    }

    pub fn zero() -> (a: Address)
        ensures
            a == spec_zero_address(),
            a@ == 0,
    {
        Address { hi: 0, lo: 0 }
    }

    /// The address in the last 20 bytes of a big-endian word.
    pub fn from_word(w: &Uint256) -> (a: Address)
        ensures
            a == spec_address_from_word(*w),
            a@ == w@ % two_160(),
    {
        proof {
            lemma_address_from_word_value(*w);
        }
        Address { hi: (w.hi % 0x1_0000_0000) as u32, lo: w.lo }
    }

    /// The word whose last 20 bytes are the address.
    pub fn to_word(&self) -> (w: Uint256)
        ensures
            w == spec_address_word(*self),
            w@ == self@,
    {
        Uint256 { hi: self.hi as u128, lo: self.lo }
    }

    /// Reads the 20 big-endian bytes `s[start..start + 20]`.
    pub fn from_be_slice(s: &[u8], start: usize) -> (a: Address)
        requires
            start + 20 <= s@.len(),
        ensures
            a@ == be_value(s@.subrange(start as int, start + 20)),
    {
        let n = s.len();
        assert(start + 4 < n);
        let hi = read_be(s, start, 4);
        let lo = read_be(s, start + 4, 16);
        proof {
            let x = s@.subrange(start as int, start + 4);
            let y = s@.subrange(start + 4, start + 20);
            assert(s@.subrange(start as int, start + 20) =~= x + y);
            lemma_be_value_append(x, y);
            lemma_be_value_bound(x);
            reveal_with_fuel(pow256, 5);
            lemma_pow256_16();
        }
        Address { hi: hi as u32, lo }
    }

    /// The 20 big-endian bytes of the address.
    pub fn to_be_bytes(&self) -> (out: Vec<u8>)
        ensures
            out@.len() == 20,
            be_value(out@) == self@,
    {
        let mut out: Vec<u8> = Vec::new();
        proof {
            reveal_with_fuel(pow256, 5);
            lemma_pow256_16();
        }
        push_be(&mut out, self.hi as u128, 4);
        let ghost first = out@;
        assert(first.subrange(0, 4) =~= first);
        push_be(&mut out, self.lo, 16);
        proof {
            let x = out@.subrange(0, 4);
            let y = out@.subrange(4, 20);
            assert(out@ =~= x + y);
            lemma_be_value_append(x, y);
        }
        out
    }
}

} // verus!
