//! Storage slots of the token contract: Solidity's layout of mappings, over Keccak-256.

use vstd::prelude::*;

use crate::abi::{be_bytes, lemma_be_bytes_unique_of};
use crate::address::Address;
use crate::bytes::be_value;
use crate::uint256::{lemma_uint256_injective, lemma_uint256_of, lemma_word_fits, uint256_of, Uint256};

verus! {

/// The Keccak-256 digest of `data`.
pub uninterp spec fn keccak256(data: Seq<u8>) -> Seq<u8>;

/// `alloy_primitives::keccak256`: the 32-byte Keccak-256 digest of the bytes.
#[verifier::external_body]
fn keccak256_digest(data: &[u8]) -> (h: Vec<u8>)
    ensures
        h@ == keccak256(data@),
        h@.len() == 32,
{
    alloy_primitives::keccak256(data).to_vec()
}

/// Slot of the allowances mapping `owner => spender => amount`.
pub open spec fn spec_allowance_root() -> Uint256 {
    Uint256 { hi: 0, lo: 0 }
}

/// Slot that holds the minter's address.
pub open spec fn spec_minter_slot() -> Uint256 {
    Uint256 { hi: 0, lo: 1 }
}

/// Slot that holds the total supply.
pub open spec fn spec_total_supply_slot() -> Uint256 {
    Uint256 { hi: 0, lo: 2 }
}

/// The slot of `key` in the mapping rooted at `map_slot`: the Keccak-256 digest of the key's
/// 32-byte word followed by the root's 32-byte word, read as a big-endian number.
pub open spec fn spec_map_slot(map_slot: Uint256, key: Address) -> Uint256 {
    uint256_of(be_value(keccak256(be_bytes(key@, 32) + be_bytes(map_slot@, 32))))
}

/// The slot of `allowance[owner][spender]`.
pub open spec fn spec_allowance_slot(owner: Address, spender: Address) -> Uint256 {
    spec_map_slot(spec_map_slot(spec_allowance_root(), owner), spender)
}

pub fn allowance_root() -> (s: Uint256)
    ensures
        s == spec_allowance_root(),
{
    Uint256 { hi: 0, lo: 0 }
}

pub fn minter_slot() -> (s: Uint256)
    ensures
        s == spec_minter_slot(),
{
    Uint256 { hi: 0, lo: 1 }
}

pub fn total_supply_slot() -> (s: Uint256)
    ensures
        s == spec_total_supply_slot(),
{
    Uint256 { hi: 0, lo: 2 }
}

/// The storage slot of `key` in the mapping rooted at `map_slot`.
pub fn get_map_slot(map_slot: &Uint256, key: &Address) -> (s: Uint256)
    ensures
        s == spec_map_slot(*map_slot, *key),
{
    let mut buf = key.to_word().to_be_bytes();
    let root = map_slot.to_be_bytes();
    proof {
        lemma_be_bytes_unique_of(buf@, key@);
        lemma_be_bytes_unique_of(root@, map_slot@);
    }
    let mut i: usize = 0;
    let ghost key_bytes = buf@;
    while i < 32
        invariant
            i <= 32,
            root@.len() == 32,
            buf@ =~= key_bytes + root@.subrange(0, i as int),
        decreases 32 - i,
    {
        buf.push(root[i]);
        i = i + 1;
    }
    assert(root@.subrange(0, 32) =~= root@);
    let h = keccak256_digest(&buf);
    let s = Uint256::from_be_slice(&h, 0);
    proof {
        assert(h@.subrange(0, 32) =~= h@);
        lemma_word_fits(h@);
        lemma_uint256_of(be_value(h@));
        lemma_uint256_injective(s, uint256_of(be_value(h@)));
    }
    s
}

/// The storage slot of `key` in the mapping rooted at `map_slot`, as `get_map_slot` computes it.
pub fn get_map_slot_generic(map_slot: &Uint256, key: &Address) -> (s: Uint256)
    ensures
        s == spec_map_slot(*map_slot, *key),
{
    get_map_slot(map_slot, key)
}

/// The storage slot of `allowance[owner][spender]`.
pub fn allowance_slot(owner: &Address, spender: &Address) -> (s: Uint256)
    ensures
        s == spec_allowance_slot(*owner, *spender),
{
    let outer = get_map_slot(&allowance_root(), owner);
    get_map_slot(&outer, spender)
}

} // verus!
