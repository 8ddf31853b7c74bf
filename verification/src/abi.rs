//! The ABI of the token interface: decoding calls and encoding return data.

use vstd::prelude::*;

use alloy_sol_types::SolValue;
use vstd::string::StringSliceAdditionalSpecFns;

use crate::address::{spec_address_from_word, Address};
use crate::bytes::{be_value, lemma_be_value_bound, lemma_pow256_positive, pow256, zeros};
use crate::uint256::{
    lemma_be_bytes_unique, lemma_uint256_injective, lemma_uint256_of, lemma_word_fits, uint256_of,
    Uint256,
};

verus! {

/// Selector of `name()`.
pub const SELECTOR_NAME: u32 = 0x06fdde03;

/// Selector of `symbol()`.
pub const SELECTOR_SYMBOL: u32 = 0x95d89b41;

/// Selector of `decimals()`.
pub const SELECTOR_DECIMALS: u32 = 0x313ce567;

/// Selector of `totalSupply()`.
pub const SELECTOR_TOTAL_SUPPLY: u32 = 0x18160ddd;

/// Selector of `balanceOf(address)`.
pub const SELECTOR_BALANCE_OF: u32 = 0x70a08231;

/// Selector of `transfer(address,uint256)`.
pub const SELECTOR_TRANSFER: u32 = 0xa9059cbb;

/// Selector of `allowance(address,address)`.
pub const SELECTOR_ALLOWANCE: u32 = 0xdd62ed3e;

/// Selector of `approve(address,uint256)`.
pub const SELECTOR_APPROVE: u32 = 0x095ea7b3;

/// Selector of `transferFrom(address,address,uint256)`.
pub const SELECTOR_TRANSFER_FROM: u32 = 0x23b872dd;

/// Selector of `mint(address,uint256)`.
pub const SELECTOR_MINT: u32 = 0x40c10f19;

/// Selector of `burn(address,uint256)`.
pub const SELECTOR_BURN: u32 = 0x9dc29fac;

/// Selector of `setMinter(address)`.
pub const SELECTOR_SET_MINTER: u32 = 0xfca3b5aa;

/// A decoded call of the token interface.
#[derive(Clone, Copy, Debug, PartialEq, Eq, Structural)]
pub enum Erc20Call {
    Name,
    Symbol,
    Decimals,
    TotalSupply,
    BalanceOf { account: Address },
    Transfer { recipient: Address, amount: Uint256 },
    Allowance { owner: Address, spender: Address },
    Approve { spender: Address, amount: Uint256 },
    TransferFrom { sender: Address, recipient: Address, amount: Uint256 },
    Mint { to: Address, amount: Uint256 },
    Burn { from: Address, amount: Uint256 },
    SetMinter { minter: Address },
}

/// Which of the two token interfaces a call is decoded against: the second one also has
/// `burn(address,uint256)`.
#[derive(Clone, Copy, Debug, PartialEq, Eq, Structural)]
pub enum Interface {
    Plain,
    WithBurn,
}

/// The selector: the first four bytes of the call data, big-endian.
pub open spec fn spec_selector(input: Seq<u8>) -> nat {
    be_value(input.subrange(0, 4))
}

/// The `i`-th 32-byte argument word after the selector.
pub open spec fn spec_arg_word(input: Seq<u8>, i: nat) -> Seq<u8> {
    input.subrange(4 + 32 * i as int, 4 + 32 * i as int + 32)
}

/// The `i`-th argument read as a `uint256`.
pub open spec fn spec_arg_uint(input: Seq<u8>, i: nat) -> Uint256 {
    uint256_of(be_value(spec_arg_word(input, i)))
}

/// The `i`-th argument read as an `address`: the low 20 bytes of its word, the high 12 bytes
/// being ignored.
pub open spec fn spec_arg_address(input: Seq<u8>, i: nat) -> Address {
    spec_address_from_word(spec_arg_uint(input, i))
}

/// Whether the call data holds `n` argument words after the selector (more bytes may follow).
pub open spec fn spec_has_args(input: Seq<u8>, n: nat) -> bool {
    input.len() >= 4 + 32 * n
}

/// What the call data decodes to: the selector picks the function, its arguments follow as
/// 32-byte words, bytes past them are ignored, and unknown selectors or missing words decode
/// to nothing.
pub open spec fn spec_decode_call(input: Seq<u8>, iface: Interface) -> Option<Erc20Call> {
    if input.len() < 4 {
        None
    } else {
        let s = spec_selector(input);
        if s == SELECTOR_NAME as nat {
            Some(Erc20Call::Name)
        } else if s == SELECTOR_SYMBOL as nat {
            Some(Erc20Call::Symbol)
        } else if s == SELECTOR_DECIMALS as nat {
            Some(Erc20Call::Decimals)
        } else if s == SELECTOR_TOTAL_SUPPLY as nat {
            Some(Erc20Call::TotalSupply)
        } else if s == SELECTOR_BALANCE_OF as nat {
            if spec_has_args(input, 1) {
                Some(Erc20Call::BalanceOf { account: spec_arg_address(input, 0) })
            } else {
                None
            }
        } else if s == SELECTOR_TRANSFER as nat {
            if spec_has_args(input, 2) {
                Some(
                    Erc20Call::Transfer {
                        recipient: spec_arg_address(input, 0),
                        amount: spec_arg_uint(input, 1),
                    },
                )
            } else {
                None
            }
        } else if s == SELECTOR_ALLOWANCE as nat {
            if spec_has_args(input, 2) {
                Some(
                    Erc20Call::Allowance {
                        owner: spec_arg_address(input, 0),
                        spender: spec_arg_address(input, 1),
                    },
                )
            } else {
                None
            }
        } else if s == SELECTOR_APPROVE as nat {
            if spec_has_args(input, 2) {
                Some(
                    Erc20Call::Approve {
                        spender: spec_arg_address(input, 0),
                        amount: spec_arg_uint(input, 1),
                    },
                )
            } else {
                None
            }
        } else if s == SELECTOR_TRANSFER_FROM as nat {
            if spec_has_args(input, 3) {
                Some(
                    Erc20Call::TransferFrom {
                        sender: spec_arg_address(input, 0),
                        recipient: spec_arg_address(input, 1),
                        amount: spec_arg_uint(input, 2),
                    },
                )
            } else {
                None
            }
        } else if s == SELECTOR_MINT as nat {
            if spec_has_args(input, 2) {
                Some(
                    Erc20Call::Mint { to: spec_arg_address(input, 0), amount: spec_arg_uint(input, 1) },
                )
            } else {
                None
            }
        } else if s == SELECTOR_BURN as nat && iface == Interface::WithBurn {
            if spec_has_args(input, 2) {
                Some(
                    Erc20Call::Burn {
                        from: spec_arg_address(input, 0),
                        amount: spec_arg_uint(input, 1),
                    },
                )
            } else {
                None
            }
        } else if s == SELECTOR_SET_MINTER as nat {
            if spec_has_args(input, 1) {
                Some(Erc20Call::SetMinter { minter: spec_arg_address(input, 0) })
            } else {
                None
            }
        } else {
            None
        }
    }
}

/// The selector of a call's function.
pub open spec fn call_selector(call: Erc20Call) -> u32 {
    match call {
        Erc20Call::Name => SELECTOR_NAME,
        Erc20Call::Symbol => SELECTOR_SYMBOL,
        Erc20Call::Decimals => SELECTOR_DECIMALS,
        Erc20Call::TotalSupply => SELECTOR_TOTAL_SUPPLY,
        Erc20Call::BalanceOf { .. } => SELECTOR_BALANCE_OF,
        Erc20Call::Transfer { .. } => SELECTOR_TRANSFER,
        Erc20Call::Allowance { .. } => SELECTOR_ALLOWANCE,
        Erc20Call::Approve { .. } => SELECTOR_APPROVE,
        Erc20Call::TransferFrom { .. } => SELECTOR_TRANSFER_FROM,
        Erc20Call::Mint { .. } => SELECTOR_MINT,
        Erc20Call::Burn { .. } => SELECTOR_BURN,
        Erc20Call::SetMinter { .. } => SELECTOR_SET_MINTER,
    }
}

/// The values of a call's arguments, in the order of the function's parameters.
pub open spec fn call_args(call: Erc20Call) -> Seq<nat> {
    match call {
        Erc20Call::BalanceOf { account } => seq![account@],
        Erc20Call::Transfer { recipient, amount } => seq![recipient@, amount@],
        Erc20Call::Allowance { owner, spender } => seq![owner@, spender@],
        Erc20Call::Approve { spender, amount } => seq![spender@, amount@],
        Erc20Call::TransferFrom { sender, recipient, amount } => seq![
            sender@,
            recipient@,
            amount@,
        ],
        Erc20Call::Mint { to, amount } => seq![to@, amount@],
        Erc20Call::Burn { from, amount } => seq![from@, amount@],
        Erc20Call::SetMinter { minter } => seq![minter@],
        _ => seq![],
    }
}

/// The call data holds the call's selector and then one 32-byte word per argument, each
/// word big-endian with the argument's value.
pub open spec fn lays_out(input: Seq<u8>, call: Erc20Call) -> bool {
    &&& input.len() >= 4 + 32 * call_args(call).len()
    &&& spec_selector(input) == call_selector(call) as nat
    &&& forall|i: nat|
        i < call_args(call).len() ==> #[trigger] be_value(spec_arg_word(input, i)) == call_args(
            call,
        )[i as int]
}

/// A word whose value is an address's value reads back as that address.
proof fn lemma_word_reads_address(w: Seq<u8>, a: Address)
    requires
        be_value(w) == a@,
    ensures
        spec_address_from_word(uint256_of(be_value(w))) == a,
{
    crate::address::lemma_address_word_roundtrip(a);
    crate::uint256::lemma_uint256_of_view(crate::address::spec_address_word(a));
}

/// A word whose value is a `uint256`'s value reads back as that `uint256`.
proof fn lemma_word_reads_uint(w: Seq<u8>, v: Uint256)
    requires
        be_value(w) == v@,
    ensures
        uint256_of(be_value(w)) == v,
{
    crate::uint256::lemma_uint256_of_view(v);
}

/// Call data that lays out a call (its selector, then its arguments in the order of the
/// function's parameters) decodes to that call, in both interfaces (`burn` only in the one
/// that has it); bytes after the arguments do not matter.
pub proof fn law_decode_reads_laid_out_call(input: Seq<u8>, call: Erc20Call, iface: Interface)
    requires
        lays_out(input, call),
        call is Burn ==> iface == Interface::WithBurn,
    ensures
        spec_decode_call(input, iface) == Some(call),
{
    let args = call_args(call);
    match call {
        Erc20Call::BalanceOf { account } => {
            assert(be_value(spec_arg_word(input, 0)) == args[0]);
            lemma_word_reads_address(spec_arg_word(input, 0), account);
        },
        Erc20Call::Transfer { recipient, amount } => {
            assert(be_value(spec_arg_word(input, 0)) == args[0]);
            assert(be_value(spec_arg_word(input, 1)) == args[1]);
            lemma_word_reads_address(spec_arg_word(input, 0), recipient);
            lemma_word_reads_uint(spec_arg_word(input, 1), amount);
        },
        Erc20Call::Allowance { owner, spender } => {
            assert(be_value(spec_arg_word(input, 0)) == args[0]);
            assert(be_value(spec_arg_word(input, 1)) == args[1]);
            lemma_word_reads_address(spec_arg_word(input, 0), owner);
            lemma_word_reads_address(spec_arg_word(input, 1), spender);
        },
        Erc20Call::Approve { spender, amount } => {
            assert(be_value(spec_arg_word(input, 0)) == args[0]);
            assert(be_value(spec_arg_word(input, 1)) == args[1]);
            lemma_word_reads_address(spec_arg_word(input, 0), spender);
            lemma_word_reads_uint(spec_arg_word(input, 1), amount);
        },
        Erc20Call::TransferFrom { sender, recipient, amount } => {
            assert(be_value(spec_arg_word(input, 0)) == args[0]);
            assert(be_value(spec_arg_word(input, 1)) == args[1]);
            assert(be_value(spec_arg_word(input, 2)) == args[2]);
            lemma_word_reads_address(spec_arg_word(input, 0), sender);
            lemma_word_reads_address(spec_arg_word(input, 1), recipient);
            lemma_word_reads_uint(spec_arg_word(input, 2), amount);
        },
        Erc20Call::Mint { to, amount } => {
            assert(be_value(spec_arg_word(input, 0)) == args[0]);
            assert(be_value(spec_arg_word(input, 1)) == args[1]);
            lemma_word_reads_address(spec_arg_word(input, 0), to);
            lemma_word_reads_uint(spec_arg_word(input, 1), amount);
        },
        Erc20Call::Burn { from, amount } => {
            assert(be_value(spec_arg_word(input, 0)) == args[0]);
            assert(be_value(spec_arg_word(input, 1)) == args[1]);
            lemma_word_reads_address(spec_arg_word(input, 0), from);
            lemma_word_reads_uint(spec_arg_word(input, 1), amount);
        },
        Erc20Call::SetMinter { minter } => {
            assert(be_value(spec_arg_word(input, 0)) == args[0]);
            lemma_word_reads_address(spec_arg_word(input, 0), minter);
        },
        _ => {},
    }
}

/// Reads argument word `i` as a `uint256`.
fn arg_uint(input: &[u8], i: usize) -> (r: Uint256)
    requires
        i <= 2,
        spec_has_args(input@, (i + 1) as nat),
    ensures
        r == spec_arg_uint(input@, i as nat),
{
    let r = Uint256::from_be_slice(input, 4 + 32 * i);
    proof {
        let w = spec_arg_word(input@, i as nat);
        assert(input@.subrange(4 + 32 * i, 4 + 32 * i + 32) == w);
        lemma_word_fits(w);
        lemma_uint256_of(be_value(w));
        lemma_uint256_injective(r, uint256_of(be_value(w)));
    }
    r
}

/// Reads argument word `i` as an `address`.
fn arg_address(input: &[u8], i: usize) -> (r: Address)
    requires
        i <= 2,
        spec_has_args(input@, (i + 1) as nat),
    ensures
        r == spec_arg_address(input@, i as nat),
{
    let w = arg_uint(input, i);
    Address::from_word(&w)
}

/// Decodes call data against one of the token interfaces.
pub fn decode_call(input: &[u8], iface: Interface) -> (r: Option<Erc20Call>)
    ensures
        r == spec_decode_call(input@, iface),
{
    let n = input.len();
    if n < 4 {
        return None;
    }
    let s = crate::bytes::read_be(input, 0, 4);
    if s == SELECTOR_NAME as u128 {
        Some(Erc20Call::Name)
    } else if s == SELECTOR_SYMBOL as u128 {
        Some(Erc20Call::Symbol)
    } else if s == SELECTOR_DECIMALS as u128 {
        Some(Erc20Call::Decimals)
    } else if s == SELECTOR_TOTAL_SUPPLY as u128 {
        Some(Erc20Call::TotalSupply)
    } else if s == SELECTOR_BALANCE_OF as u128 {
        if n >= 36 {
            Some(Erc20Call::BalanceOf { account: arg_address(input, 0) })
        } else {
            None
        }
    } else if s == SELECTOR_TRANSFER as u128 {
        if n >= 68 {
            Some(Erc20Call::Transfer { recipient: arg_address(input, 0), amount: arg_uint(input, 1) })
        } else {
            None
        }
    } else if s == SELECTOR_ALLOWANCE as u128 {
        if n >= 68 {
            Some(Erc20Call::Allowance { owner: arg_address(input, 0), spender: arg_address(input, 1) })
        } else {
            None
        }
    } else if s == SELECTOR_APPROVE as u128 {
        if n >= 68 {
            Some(Erc20Call::Approve { spender: arg_address(input, 0), amount: arg_uint(input, 1) })
        } else {
            None
        }
    } else if s == SELECTOR_TRANSFER_FROM as u128 {
        if n >= 100 {
            Some(
                Erc20Call::TransferFrom {
                    sender: arg_address(input, 0),
                    recipient: arg_address(input, 1),
                    amount: arg_uint(input, 2),
                },
            )
        } else {
            None
        }
    } else if s == SELECTOR_MINT as u128 {
        if n >= 68 {
            Some(Erc20Call::Mint { to: arg_address(input, 0), amount: arg_uint(input, 1) })
        } else {
            None
        }
    } else if s == SELECTOR_BURN as u128 && iface == Interface::WithBurn {
        if n >= 68 {
            Some(Erc20Call::Burn { from: arg_address(input, 0), amount: arg_uint(input, 1) })
        } else {
            None
        }
    } else if s == SELECTOR_SET_MINTER as u128 {
        if n >= 36 {
            Some(Erc20Call::SetMinter { minter: arg_address(input, 0) })
        } else {
            None
        }
    } else {
        None
    }
}

/// The `n` big-endian bytes of `v`, modulo `256^n`.
pub open spec fn be_bytes(v: nat, n: nat) -> Seq<u8>
    decreases n,
{
    if n == 0 {
        Seq::empty()
    } else {
        be_bytes(v / 256, (n - 1) as nat).push((v % 256) as u8)
    }
}

/// `be_bytes(v, n)` has `n` bytes and denotes `v` modulo `256^n`.
pub proof fn lemma_be_bytes(v: nat, n: nat)
    ensures
        be_bytes(v, n).len() == n,
        be_value(be_bytes(v, n)) == v % pow256(n),
    decreases n,
{
    if n == 0 {
        assert(be_value(Seq::<u8>::empty()) == 0);
    } else {
        let n1 = (n - 1) as nat;
        lemma_be_bytes(v / 256, n1);
        let b = be_bytes(v, n);
        assert(b.drop_last() =~= be_bytes(v / 256, n1));
        lemma_pow256_positive(n1);
        vstd::arithmetic::div_mod::lemma_breakdown(v as int, 256, pow256(n1) as int);
    }
}

/// The only `n` bytes that denote `v < 256^n`.
pub proof fn lemma_be_bytes_unique_of(s: Seq<u8>, v: nat)
    requires
        be_value(s) == v,
    ensures
        s == be_bytes(v, s.len()),
{
    lemma_be_bytes(v, s.len());
    lemma_be_value_bound(s);
    vstd::arithmetic::div_mod::lemma_small_mod(v, pow256(s.len()));
    lemma_be_bytes_unique(s, be_bytes(v, s.len()));
}

/// The encoding of a single `uint256` return value: its 32-byte big-endian word.
pub open spec fn spec_encode_uint(v: nat) -> Seq<u8> {
    be_bytes(v, 32)
}

/// The encoding of a single `bool` return value.
pub open spec fn spec_encode_bool(b: bool) -> Seq<u8> {
    zeros(31).push(if b { 1u8 } else { 0u8 })
}

/// Zero bytes that pad `n` bytes up to a multiple of 32.
pub open spec fn padding(n: nat) -> Seq<u8> {
    zeros(((32 - n % 32) % 32) as nat)
}

/// The encoding of the one-element tuple `(string,)`: a dynamic tuple, so an offset word to
/// the tuple, within it an offset word to the string, then the length word and the bytes,
/// padded to a whole word.
pub open spec fn spec_encode_string_tuple(s: Seq<u8>) -> Seq<u8> {
    be_bytes(32, 32) + be_bytes(32, 32) + be_bytes(s.len(), 32) + s + padding(s.len())
}

/// `(U256::from_be_slice(word),).abi_encode()` of `alloy_sol_types`: the ABI encoding of a
/// one-element tuple of a `uint256` is that value's 32-byte big-endian word, here the
/// argument itself.
#[verifier::external_body]
pub(crate) fn abi_encode_uint_word(word: &[u8]) -> (out: Vec<u8>)
    requires
        word@.len() == 32,
    ensures
        out@ == word@,
{
    (alloy_primitives::U256::from_be_slice(word),).abi_encode()
}

/// `(b,).abi_encode()` of `alloy_sol_types`: the ABI encoding of a one-element tuple of a
/// `bool` is a word of 31 zero bytes and then `1` or `0`.
#[verifier::external_body]
pub(crate) fn abi_encode_bool(b: bool) -> (out: Vec<u8>)
    ensures
        out@ == spec_encode_bool(b),
{
    (b,).abi_encode()
}

/// `(s.to_string(),).abi_encode()` of `alloy_sol_types`: the ABI encoding of the dynamic
/// tuple `(string,)` as `spec_encode_string_tuple` states it.
#[verifier::external_body]
pub(crate) fn abi_encode_string(s: &str) -> (out: Vec<u8>)
    ensures
        out@ == spec_encode_string_tuple(s.spec_bytes()),
{
    (s.to_string(),).abi_encode()
}


/// The 32-byte argument word of an address.
pub open spec fn address_arg(a: Address) -> Seq<u8> {
    be_bytes(a@, 32)
}

/// The 32-byte argument word of a `uint256`.
pub open spec fn uint_arg(v: Uint256) -> Seq<u8> {
    be_bytes(v@, 32)
}

/// The call data of a call: the selector's four bytes, then one word per argument.
pub open spec fn spec_encode_call(call: Erc20Call) -> Seq<u8> {
    match call {
        Erc20Call::Name => be_bytes(SELECTOR_NAME as nat, 4),
        Erc20Call::Symbol => be_bytes(SELECTOR_SYMBOL as nat, 4),
        Erc20Call::Decimals => be_bytes(SELECTOR_DECIMALS as nat, 4),
        Erc20Call::TotalSupply => be_bytes(SELECTOR_TOTAL_SUPPLY as nat, 4),
        Erc20Call::BalanceOf { account } => be_bytes(SELECTOR_BALANCE_OF as nat, 4) + address_arg(
            account,
        ),
        Erc20Call::Transfer { recipient, amount } => be_bytes(SELECTOR_TRANSFER as nat, 4)
            + address_arg(recipient) + uint_arg(amount),
        Erc20Call::Allowance { owner, spender } => be_bytes(SELECTOR_ALLOWANCE as nat, 4)
            + address_arg(owner) + address_arg(spender),
        Erc20Call::Approve { spender, amount } => be_bytes(SELECTOR_APPROVE as nat, 4)
            + address_arg(spender) + uint_arg(amount),
        Erc20Call::TransferFrom { sender, recipient, amount } => be_bytes(
            SELECTOR_TRANSFER_FROM as nat,
            4,
        ) + address_arg(sender) + address_arg(recipient) + uint_arg(amount),
        Erc20Call::Mint { to, amount } => be_bytes(SELECTOR_MINT as nat, 4) + address_arg(to)
            + uint_arg(amount),
        Erc20Call::Burn { from, amount } => be_bytes(SELECTOR_BURN as nat, 4) + address_arg(from)
            + uint_arg(amount),
        Erc20Call::SetMinter { minter } => be_bytes(SELECTOR_SET_MINTER as nat, 4) + address_arg(
            minter,
        ),
    }
}

proof fn lemma_selector_bytes(sel: u32, rest: Seq<u8>)
    ensures
        (be_bytes(sel as nat, 4) + rest).len() == 4 + rest.len(),
        spec_selector(be_bytes(sel as nat, 4) + rest) == sel as nat,
{
    let b = be_bytes(sel as nat, 4);
    lemma_be_bytes(sel as nat, 4);
    assert((b + rest).subrange(0, 4) =~= b);
    reveal_with_fuel(pow256, 5);
    vstd::arithmetic::div_mod::lemma_small_mod(sel as nat, pow256(4));
}

proof fn lemma_uint_arg(v: Uint256)
    ensures
        uint_arg(v).len() == 32,
        uint256_of(be_value(uint_arg(v))) == v,
{
    lemma_be_bytes(v@, 32);
    crate::uint256::lemma_uint256_bound(v);
    crate::bytes::lemma_pow256_32();
    vstd::arithmetic::div_mod::lemma_small_mod(v@, pow256(32));
    crate::uint256::lemma_uint256_of_view(v);
}

proof fn lemma_address_arg(a: Address)
    ensures
        address_arg(a).len() == 32,
        spec_address_from_word(uint256_of(be_value(address_arg(a)))) == a,
{
    let w = crate::address::spec_address_word(a);
    crate::address::lemma_address_word_roundtrip(a);
    lemma_uint_arg(w);
}

/// Decoding the call data of a call gives the call back, whatever bytes follow the
/// arguments; `burn` only where the interface has it.
pub proof fn law_decode_encoded_call(call: Erc20Call, iface: Interface, extra: Seq<u8>)
    requires
        call is Burn ==> iface == Interface::WithBurn,
    ensures
        spec_decode_call(spec_encode_call(call) + extra, iface) == Some(call),
{
    let input = spec_encode_call(call) + extra;
    match call {
        Erc20Call::Name => lemma_selector_bytes(SELECTOR_NAME, extra),
        Erc20Call::Symbol => lemma_selector_bytes(SELECTOR_SYMBOL, extra),
        Erc20Call::Decimals => lemma_selector_bytes(SELECTOR_DECIMALS, extra),
        Erc20Call::TotalSupply => lemma_selector_bytes(SELECTOR_TOTAL_SUPPLY, extra),
        Erc20Call::BalanceOf { account } => {
            lemma_address_arg(account);
            let rest = address_arg(account) + extra;
            assert(input =~= be_bytes(SELECTOR_BALANCE_OF as nat, 4) + rest);
            lemma_selector_bytes(SELECTOR_BALANCE_OF, rest);
            assert(spec_arg_word(input, 0) =~= address_arg(account));
        },
        Erc20Call::SetMinter { minter } => {
            lemma_address_arg(minter);
            let rest = address_arg(minter) + extra;
            assert(input =~= be_bytes(SELECTOR_SET_MINTER as nat, 4) + rest);
            lemma_selector_bytes(SELECTOR_SET_MINTER, rest);
            assert(spec_arg_word(input, 0) =~= address_arg(minter));
        },
        Erc20Call::Transfer { recipient, amount } => {
            lemma_address_arg(recipient);
            lemma_uint_arg(amount);
            let rest = address_arg(recipient) + uint_arg(amount) + extra;
            assert(input =~= be_bytes(SELECTOR_TRANSFER as nat, 4) + rest);
            lemma_selector_bytes(SELECTOR_TRANSFER, rest);
            assert(spec_arg_word(input, 0) =~= address_arg(recipient));
            assert(spec_arg_word(input, 1) =~= uint_arg(amount));
        },
        Erc20Call::Allowance { owner, spender } => {
            lemma_address_arg(owner);
            lemma_address_arg(spender);
            let rest = address_arg(owner) + address_arg(spender) + extra;
            assert(input =~= be_bytes(SELECTOR_ALLOWANCE as nat, 4) + rest);
            lemma_selector_bytes(SELECTOR_ALLOWANCE, rest);
            assert(spec_arg_word(input, 0) =~= address_arg(owner));
            assert(spec_arg_word(input, 1) =~= address_arg(spender));
        },
        Erc20Call::Approve { spender, amount } => {
            lemma_address_arg(spender);
            lemma_uint_arg(amount);
            let rest = address_arg(spender) + uint_arg(amount) + extra;
            assert(input =~= be_bytes(SELECTOR_APPROVE as nat, 4) + rest);
            lemma_selector_bytes(SELECTOR_APPROVE, rest);
            assert(spec_arg_word(input, 0) =~= address_arg(spender));
            assert(spec_arg_word(input, 1) =~= uint_arg(amount));
        },
        Erc20Call::TransferFrom { sender, recipient, amount } => {
            lemma_address_arg(sender);
            lemma_address_arg(recipient);
            lemma_uint_arg(amount);
            let rest = address_arg(sender) + address_arg(recipient) + uint_arg(amount) + extra;
            assert(input =~= be_bytes(SELECTOR_TRANSFER_FROM as nat, 4) + rest);
            lemma_selector_bytes(SELECTOR_TRANSFER_FROM, rest);
            assert(spec_arg_word(input, 0) =~= address_arg(sender));
            assert(spec_arg_word(input, 1) =~= address_arg(recipient));
            assert(spec_arg_word(input, 2) =~= uint_arg(amount));
        },
        Erc20Call::Mint { to, amount } => {
            lemma_address_arg(to);
            lemma_uint_arg(amount);
            let rest = address_arg(to) + uint_arg(amount) + extra;
            assert(input =~= be_bytes(SELECTOR_MINT as nat, 4) + rest);
            lemma_selector_bytes(SELECTOR_MINT, rest);
            assert(spec_arg_word(input, 0) =~= address_arg(to));
            assert(spec_arg_word(input, 1) =~= uint_arg(amount));
        },
        Erc20Call::Burn { from, amount } => {
            lemma_address_arg(from);
            lemma_uint_arg(amount);
            let rest = address_arg(from) + uint_arg(amount) + extra;
            assert(input =~= be_bytes(SELECTOR_BURN as nat, 4) + rest);
            lemma_selector_bytes(SELECTOR_BURN, rest);
            assert(spec_arg_word(input, 0) =~= address_arg(from));
            assert(spec_arg_word(input, 1) =~= uint_arg(amount));
        },
    }
}

} // verus!
