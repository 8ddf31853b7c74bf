use std::collections::HashMap;
use std::str::FromStr;

use alloy_primitives::{keccak256, Keccak256, U256};
use alloy_sol_types::SolValue;

use native_erc20::abi::{decode_call, Erc20Call, Interface};
use native_erc20::address::Address;
use native_erc20::host::{
    event_signature_hash, log_data, log_topics, output_bytes, CallResult, EventKind, HostReply,
    HostRequest, Outcome, Output, RevertReason, Step, TokenLog, TransferStatus,
};
use native_erc20::inspector::{Erc20Execution, NativeErc20Inspector};
use native_erc20::praf::PrafRun;
use native_erc20::precompile::PrecompileRun;
use native_erc20::slots::{allowance_root, get_map_slot, get_map_slot_generic, minter_slot, total_supply_slot};
use native_erc20::uint256::Uint256;

// ---------------------------------------------------------------- helpers

fn alloy_address(hex: &str) -> alloy_primitives::Address {
    alloy_primitives::Address::from_str(hex).unwrap()
}

fn to_address(a: alloy_primitives::Address) -> Address {
    Address::from_be_slice(a.as_slice(), 0)
}

fn addr(hex: &str) -> Address {
    to_address(alloy_address(hex))
}

fn word(v: U256) -> Uint256 {
    let bytes: [u8; 32] = v.to_be_bytes();
    Uint256::from_be_slice(&bytes, 0)
}

fn to_u256(w: Uint256) -> U256 {
    U256::from_be_slice(&w.to_be_bytes())
}

fn selector(signature: &str) -> Vec<u8> {
    keccak256(signature.as_bytes())[..4].to_vec()
}

fn call_data(signature: &str, args: &[Vec<u8>]) -> Vec<u8> {
    let mut out = selector(signature);
    for a in args {
        out.extend_from_slice(a);
    }
    out
}

fn address_arg(a: alloy_primitives::Address) -> Vec<u8> {
    (a,).abi_encode()
}

fn uint_arg(v: U256) -> Vec<u8> {
    (v,).abi_encode()
}

/// A host that keeps balances, storage and logs in maps, as the tests' EVM.
#[derive(Default)]
struct TestHost {
    balances: HashMap<Address, U256>,
    storage: HashMap<Uint256, U256>,
    logs: Vec<TokenLog>,
    fail_storage_store: bool,
}

impl TestHost {
    fn balance(&self, a: &Address) -> U256 {
        self.balances.get(a).copied().unwrap_or(U256::ZERO)
    }

    fn stored(&self, s: &Uint256) -> U256 {
        self.storage.get(s).copied().unwrap_or(U256::ZERO)
    }

    fn serve(&mut self, req: HostRequest) -> HostReply {
        match req {
            HostRequest::LoadBalance { account }
            | HostRequest::EntryBalance { account }
            | HostRequest::LoadAccountBalance { account } => {
                HostReply::Value(Some(word(self.balance(&account))))
            }
            HostRequest::StorageLoad { slot } => HostReply::Value(Some(word(self.stored(&slot)))),
            HostRequest::StorageStore { slot, value } => {
                if self.fail_storage_store {
                    HostReply::Done(false)
                } else {
                    self.storage.insert(slot, to_u256(value));
                    HostReply::Done(true)
                }
            }
            HostRequest::SetEntryBalance { account, balance }
            | HostRequest::SetAccountBalance { account, balance } => {
                self.balances.insert(account, to_u256(balance));
                HostReply::Done(true)
            }
            HostRequest::JournalTransfer { from, to, amount } => {
                let amount = to_u256(amount);
                let fb = self.balance(&from);
                if fb < amount {
                    return HostReply::Transfer(TransferStatus::Refused);
                }
                if from == to {
                    return HostReply::Transfer(TransferStatus::Moved);
                }
                self.balances.insert(from, fb - amount);
                match self.balance(&to).checked_add(amount) {
                    Some(tb) => {
                        self.balances.insert(to, tb);
                        HostReply::Transfer(TransferStatus::Moved)
                    }
                    None => HostReply::Transfer(TransferStatus::Refused),
                }
            }
            HostRequest::EmitLog { log } => {
                self.logs.push(log);
                HostReply::Ack
            }
        }
    }
}

fn run_inspector(host: &mut TestHost, caller: Address, input: &[u8], is_static: bool) -> Option<CallResult> {
    let (mut m, mut step) = Erc20Execution::start(caller, input, is_static);
    loop {
        match step {
            Step::Finish(r) => return r,
            Step::Request(req) => {
                let reply = host.serve(req);
                step = m.resume(reply);
            }
        }
    }
}

fn run_precompile(host: &mut TestHost, caller: Address, input: &[u8], is_static: bool) -> Option<CallResult> {
    let (mut m, mut step) = PrecompileRun::start(caller, input, is_static);
    loop {
        match step {
            Step::Finish(r) => return r,
            Step::Request(req) => {
                let reply = host.serve(req);
                step = m.resume(reply);
            }
        }
    }
}

fn run_praf(host: &mut TestHost, caller: Address, input: &[u8], is_static: bool) -> Option<CallResult> {
    let (mut m, mut step) = PrafRun::start(caller, input, is_static);
    loop {
        match step {
            Step::Finish(r) => return r,
            Step::Request(req) => {
                let reply = host.serve(req);
                step = m.resume(reply);
            }
        }
    }
}

fn admin() -> Address {
    addr("0xf39Fd6e51aad88F6F4ce6aB8827279cffFb92266")
}

fn returned(output: Output) -> Option<CallResult> {
    Some(CallResult { outcome: Outcome::Return, output })
}

fn reverted(output: Output) -> Option<CallResult> {
    Some(CallResult { outcome: Outcome::Revert, output })
}

// ---------------------------------------------------------------- call encoding

#[test]
fn test_name_encoding() {
    let encoded = call_data("name()", &[]);
    let decoded = decode_call(&encoded, Interface::Plain).unwrap();
    assert!(matches!(decoded, Erc20Call::Name));
}

#[test]
fn test_symbol_encoding() {
    let encoded = call_data("symbol()", &[]);
    let decoded = decode_call(&encoded, Interface::Plain).unwrap();
    assert!(matches!(decoded, Erc20Call::Symbol));
}

#[test]
fn test_decimals_encoding() {
    let encoded = call_data("decimals()", &[]);
    let decoded = decode_call(&encoded, Interface::Plain).unwrap();
    assert!(matches!(decoded, Erc20Call::Decimals));
}

#[test]
fn test_total_supply_encoding() {
    let encoded = call_data("totalSupply()", &[]);
    let decoded = decode_call(&encoded, Interface::Plain).unwrap();
    assert!(matches!(decoded, Erc20Call::TotalSupply));
}

#[test]
fn test_balance_of_encoding() {
    let account = alloy_address("0x1234567890123456789012345678901234567890");
    let encoded = call_data("balanceOf(address)", &[address_arg(account)]);
    let decoded = decode_call(&encoded, Interface::Plain).unwrap();
    if let Erc20Call::BalanceOf { account: a } = decoded {
        assert_eq!(a, to_address(account));
    } else {
        panic!("Expected balanceOf call");
    }
}

#[test]
fn test_transfer_encoding() {
    let recipient = alloy_address("0x1234567890123456789012345678901234567890");
    let amount = U256::from(1000);
    let encoded = call_data("transfer(address,uint256)", &[address_arg(recipient), uint_arg(amount)]);
    let decoded = decode_call(&encoded, Interface::Plain).unwrap();
    if let Erc20Call::Transfer { recipient: r, amount: a } = decoded {
        assert_eq!(r, to_address(recipient));
        assert_eq!(a, word(amount));
    } else {
        panic!("Expected transfer call");
    }
}

#[test]
fn test_approve_encoding() {
    let spender = alloy_address("0x1234567890123456789012345678901234567890");
    let amount = U256::from(5000);
    let encoded = call_data("approve(address,uint256)", &[address_arg(spender), uint_arg(amount)]);
    let decoded = decode_call(&encoded, Interface::Plain).unwrap();
    if let Erc20Call::Approve { spender: s, amount: a } = decoded {
        assert_eq!(s, to_address(spender));
        assert_eq!(a, word(amount));
    } else {
        panic!("Expected approve call");
    }
}

#[test]
fn test_allowance_encoding() {
    let owner = alloy_address("0x1111111111111111111111111111111111111111");
    let spender = alloy_address("0x2222222222222222222222222222222222222222");
    let encoded = call_data("allowance(address,address)", &[address_arg(owner), address_arg(spender)]);
    let decoded = decode_call(&encoded, Interface::Plain).unwrap();
    if let Erc20Call::Allowance { owner: o, spender: s } = decoded {
        assert_eq!(o, to_address(owner));
        assert_eq!(s, to_address(spender));
    } else {
        panic!("Expected allowance call");
    }
}

#[test]
fn test_transfer_from_encoding() {
    let sender = alloy_address("0x1111111111111111111111111111111111111111");
    let recipient = alloy_address("0x2222222222222222222222222222222222222222");
    let amount = U256::from(100);
    let encoded = call_data(
        "transferFrom(address,address,uint256)",
        &[address_arg(sender), address_arg(recipient), uint_arg(amount)],
    );
    let decoded = decode_call(&encoded, Interface::Plain).unwrap();
    if let Erc20Call::TransferFrom { sender: s, recipient: r, amount: a } = decoded {
        assert_eq!(s, to_address(sender));
        assert_eq!(r, to_address(recipient));
        assert_eq!(a, word(amount));
    } else {
        panic!("Expected transferFrom call");
    }
}

#[test]
fn test_transfer_event_encoding() {
    let hash = event_signature_hash(EventKind::Transfer).to_be_bytes();
    assert_eq!(hash, keccak256("Transfer(address,address,uint256)").to_vec());
}

#[test]
fn test_approval_event_encoding() {
    let hash = event_signature_hash(EventKind::Approval).to_be_bytes();
    assert_eq!(hash, keccak256("Approval(address,address,uint256)").to_vec());
}

#[test]
fn test_storage_slot_computation() {
    let owner = addr("0x1111111111111111111111111111111111111111");
    let spender = addr("0x2222222222222222222222222222222222222222");

    let outer_slot = get_map_slot_generic(&allowance_root(), &owner);
    let final_slot = get_map_slot_generic(&outer_slot, &spender);

    let outer_slot2 = get_map_slot_generic(&allowance_root(), &owner);
    let final_slot2 = get_map_slot_generic(&outer_slot2, &spender);
    assert_eq!(final_slot, final_slot2);

    let other_owner = addr("0x3333333333333333333333333333333333333333");
    let other_outer_slot = get_map_slot_generic(&allowance_root(), &other_owner);
    let other_final_slot = get_map_slot_generic(&other_outer_slot, &spender);
    assert_ne!(final_slot, other_final_slot);
}

#[test]
fn test_native_token_address() {
    assert_eq!(Address::native_token(), addr("0x0000000000000000000000000000000000000805"));
}

#[test]
fn test_name_returns_praph() {
    let expected = output_bytes(&Output::Name);
    assert!(!expected.is_empty());
}

#[test]
fn test_symbol_returns_praf() {
    let expected = output_bytes(&Output::Symbol);
    assert!(!expected.is_empty());
}

#[test]
fn test_decimals_returns_18() {
    let expected = output_bytes(&Output::Uint(Uint256::from_u128(18)));
    let decoded: (U256,) = alloy_sol_types::SolValue::abi_decode(&expected).unwrap();
    assert_eq!(decoded.0, U256::from(18));
}

#[test]
fn test_total_supply_returns_max() {
    let expected = output_bytes(&Output::Uint(Uint256::max_value()));
    let decoded: (U256,) = alloy_sol_types::SolValue::abi_decode(&expected).unwrap();
    assert_eq!(decoded.0, U256::MAX);
}

#[test]
fn test_true_return_encoding() {
    let expected = output_bytes(&Output::Bool(true));
    let decoded: (bool,) = alloy_sol_types::SolValue::abi_decode(&expected).unwrap();
    assert!(decoded.0);
}

// ---------------------------------------------------------------- words, addresses, slots

#[test]
fn word_round_trips_through_bytes() {
    let v = U256::from_str("0x0102030405060708090a0b0c0d0e0f101112131415161718191a1b1c1d1e1f20").unwrap();
    let w = word(v);
    assert_eq!(w.hi, 0x0102030405060708090a0b0c0d0e0f10);
    assert_eq!(w.lo, 0x1112131415161718191a1b1c1d1e1f20);
    assert_eq!(w.to_be_bytes(), v.to_be_bytes::<32>().to_vec());
    assert_eq!(to_u256(w), v);
}

#[test]
fn word_arithmetic_matches_u256() {
    let a = word(U256::from_str("0xffffffffffffffffffffffffffffffff").unwrap());
    let b = word(U256::from(1));
    let s = a.checked_add(&b).unwrap();
    assert_eq!(to_u256(s), U256::from(1) << 128);
    assert_eq!(to_u256(s.sub(&b)), to_u256(a));
    assert_eq!(Uint256::max_value().checked_add(&b), None);
    assert_eq!(b.checked_sub(&a), None);
    assert_eq!(Uint256::max_value().saturating_add(&b), Uint256::max_value());
    assert_eq!(b.saturating_sub(&a), Uint256::zero());
    assert!(b.lt(&a));
    assert!(!a.lt(&a));
    assert!(Uint256::max_value().is_max());
    assert!(!a.is_max());
}

#[test]
fn address_round_trips_through_bytes() {
    let a = alloy_address("0xf39Fd6e51aad88F6F4ce6aB8827279cffFb92266");
    let ours = to_address(a);
    assert_eq!(ours, Address::admin());
    assert_eq!(ours.to_be_bytes(), a.as_slice().to_vec());
    assert_eq!(ours.to_word().to_be_bytes(), a.into_word().to_vec());
    assert_eq!(Address::from_word(&word(U256::from_be_bytes(a.into_word().0))), ours);
}

#[test]
fn address_from_word_ignores_high_bytes() {
    let w = word(U256::MAX);
    let a = Address::from_word(&w);
    assert_eq!(a.to_be_bytes(), vec![0xffu8; 20]);
}

#[test]
fn map_slot_matches_streaming_keccak() {
    let key = alloy_address("0x1111111111111111111111111111111111111111");
    let mut hasher = Keccak256::new();
    hasher.update(key.into_word());
    hasher.update(U256::ZERO.to_be_bytes::<32>());
    let expected: U256 = hasher.finalize().into();
    assert_eq!(to_u256(get_map_slot(&allowance_root(), &to_address(key))), expected);
    assert_eq!(to_u256(get_map_slot_generic(&allowance_root(), &to_address(key))), expected);
}

#[test]
fn fixed_slots_are_zero_one_two() {
    assert_eq!(to_u256(allowance_root()), U256::ZERO);
    assert_eq!(to_u256(minter_slot()), U256::from(1));
    assert_eq!(to_u256(total_supply_slot()), U256::from(2));
}

// ---------------------------------------------------------------- selectors and decoding

#[test]
fn selectors_are_keccak_prefixes() {
    let cases = [
        ("mint(address,uint256)", native_erc20::abi::SELECTOR_MINT),
        ("burn(address,uint256)", native_erc20::abi::SELECTOR_BURN),
        ("setMinter(address)", native_erc20::abi::SELECTOR_SET_MINTER),
        ("transfer(address,uint256)", native_erc20::abi::SELECTOR_TRANSFER),
        ("balanceOf(address)", native_erc20::abi::SELECTOR_BALANCE_OF),
    ];
    for (sig, sel) in cases {
        assert_eq!(selector(sig), sel.to_be_bytes().to_vec(), "{}", sig);
    }
}

#[test]
fn decode_rejects_short_and_unknown_input() {
    assert_eq!(decode_call(&[0x06, 0xfd, 0xde], Interface::Plain), None);
    assert_eq!(decode_call(&[0xde, 0xad, 0xbe, 0xef], Interface::Plain), None);
    let short = call_data("transfer(address,uint256)", &[vec![0u8; 32]]);
    assert_eq!(decode_call(&short, Interface::Plain), None);
}

#[test]
fn burn_is_only_in_the_extended_interface() {
    let from = alloy_address("0x1111111111111111111111111111111111111111");
    let data = call_data("burn(address,uint256)", &[address_arg(from), uint_arg(U256::from(7))]);
    assert_eq!(decode_call(&data, Interface::Plain), None);
    assert_eq!(
        decode_call(&data, Interface::WithBurn),
        Some(Erc20Call::Burn { from: to_address(from), amount: Uint256::from_u128(7) })
    );
}

#[test]
fn decode_ignores_trailing_bytes() {
    let mut data = call_data("name()", &[]);
    data.extend_from_slice(&[1, 2, 3]);
    assert_eq!(decode_call(&data, Interface::Plain), Some(Erc20Call::Name));
}

// ---------------------------------------------------------------- outputs and logs

#[test]
fn name_and_symbol_outputs_match_alloy() {
    assert_eq!(output_bytes(&Output::Name), ("PRAPH".to_string(),).abi_encode());
    assert_eq!(output_bytes(&Output::Symbol), ("PRAF".to_string(),).abi_encode());
    let name = output_bytes(&Output::Name);
    assert_eq!(name.len(), 128);
    assert_eq!(name[31], 0x20);
    assert_eq!(name[63], 0x20);
    assert_eq!(name[95], 5);
    assert_eq!(&name[96..101], b"PRAPH");
}

#[test]
fn revert_messages_are_their_text() {
    assert_eq!(output_bytes(&Output::Message(RevertReason::InsufficientBalance)), b"Insufficient balance".to_vec());
    assert_eq!(output_bytes(&Output::Message(RevertReason::OnlyAdmin)), b"Only admin".to_vec());
    assert_eq!(output_bytes(&Output::Empty), Vec::<u8>::new());
}

#[test]
fn log_topics_and_data() {
    let from = addr("0x1111111111111111111111111111111111111111");
    let to = addr("0x2222222222222222222222222222222222222222");
    let log = TokenLog { kind: EventKind::Transfer, first: from, second: to, amount: Uint256::from_u128(1000) };
    let (t0, t1, t2) = log_topics(&log);
    assert_eq!(t0.to_be_bytes(), keccak256("Transfer(address,address,uint256)").to_vec());
    assert_eq!(t1, from.to_word());
    assert_eq!(t2, to.to_word());
    assert_eq!(log_data(&log), (U256::from(1000),).abi_encode());
}

// ---------------------------------------------------------------- the inspector's calls

#[test]
fn inspector_intercepts_only_the_token_address() {
    let insp = NativeErc20Inspector;
    let data = call_data("name()", &[]);
    assert!(insp.call(&addr("0x0000000000000000000000000000000000000806"), admin(), &data, false).is_none());
    let (_, step) = insp.call(&Address::native_token(), admin(), &data, false).unwrap();
    assert_eq!(step, Step::Finish(returned(Output::Name)));
}

#[test]
fn inspector_transfer_moves_balance_and_logs() {
    let alice = addr("0x1111111111111111111111111111111111111111");
    let bob = addr("0x2222222222222222222222222222222222222222");
    let mut host = TestHost::default();
    host.balances.insert(alice, U256::from(1000));
    let data = call_data("transfer(address,uint256)", &[address_arg(alloy_address("0x2222222222222222222222222222222222222222")), uint_arg(U256::from(300))]);
    let r = run_inspector(&mut host, alice, &data, false);
    assert_eq!(r, returned(Output::Bool(true)));
    assert_eq!(host.balance(&alice), U256::from(700));
    assert_eq!(host.balance(&bob), U256::from(300));
    assert_eq!(host.logs, vec![TokenLog { kind: EventKind::Transfer, first: alice, second: bob, amount: Uint256::from_u128(300) }]);
}

#[test]
fn inspector_transfer_with_short_balance_reverts() {
    let alice = addr("0x1111111111111111111111111111111111111111");
    let mut host = TestHost::default();
    host.balances.insert(alice, U256::from(10));
    let data = call_data("transfer(address,uint256)", &[address_arg(alloy_address("0x2222222222222222222222222222222222222222")), uint_arg(U256::from(300))]);
    let r = run_inspector(&mut host, alice, &data, false);
    assert_eq!(r, reverted(Output::Message(RevertReason::InsufficientBalance)));
    assert_eq!(host.balance(&alice), U256::from(10));
    assert!(host.logs.is_empty());
}

#[test]
fn inspector_static_transfer_reverts_without_data() {
    let alice = addr("0x1111111111111111111111111111111111111111");
    let mut host = TestHost::default();
    let data = call_data("transfer(address,uint256)", &[address_arg(alloy_address("0x2222222222222222222222222222222222222222")), uint_arg(U256::from(1))]);
    assert_eq!(run_inspector(&mut host, alice, &data, true), reverted(Output::Empty));
}

#[test]
fn inspector_approve_then_allowance_reads_back() {
    let alice = alloy_address("0x1111111111111111111111111111111111111111");
    let bob = alloy_address("0x2222222222222222222222222222222222222222");
    let mut host = TestHost::default();
    let approve = call_data("approve(address,uint256)", &[address_arg(bob), uint_arg(U256::from(5000))]);
    assert_eq!(run_inspector(&mut host, to_address(alice), &approve, false), returned(Output::Bool(true)));
    let query = call_data("allowance(address,address)", &[address_arg(alice), address_arg(bob)]);
    assert_eq!(run_inspector(&mut host, to_address(bob), &query, true), returned(Output::Uint(Uint256::from_u128(5000))));
}

#[test]
fn inspector_transfer_from_spends_allowance() {
    let alice = alloy_address("0x1111111111111111111111111111111111111111");
    let bob = alloy_address("0x2222222222222222222222222222222222222222");
    let carol = alloy_address("0x3333333333333333333333333333333333333333");
    let mut host = TestHost::default();
    host.balances.insert(to_address(alice), U256::from(1000));
    let approve = call_data("approve(address,uint256)", &[address_arg(bob), uint_arg(U256::from(500))]);
    run_inspector(&mut host, to_address(alice), &approve, false);
    let tf = call_data("transferFrom(address,address,uint256)", &[address_arg(alice), address_arg(carol), uint_arg(U256::from(200))]);
    assert_eq!(run_inspector(&mut host, to_address(bob), &tf, false), returned(Output::Bool(true)));
    assert_eq!(host.balance(&to_address(alice)), U256::from(800));
    assert_eq!(host.balance(&to_address(carol)), U256::from(200));
    let query = call_data("allowance(address,address)", &[address_arg(alice), address_arg(bob)]);
    assert_eq!(run_inspector(&mut host, to_address(bob), &query, false), returned(Output::Uint(Uint256::from_u128(300))));
    let too_much = call_data("transferFrom(address,address,uint256)", &[address_arg(alice), address_arg(carol), uint_arg(U256::from(301))]);
    assert_eq!(run_inspector(&mut host, to_address(bob), &too_much, false), reverted(Output::Message(RevertReason::InsufficientAllowance)));
}

#[test]
fn inspector_unlimited_allowance_stays() {
    let alice = alloy_address("0x1111111111111111111111111111111111111111");
    let bob = alloy_address("0x2222222222222222222222222222222222222222");
    let mut host = TestHost::default();
    host.balances.insert(to_address(alice), U256::from(1000));
    let approve = call_data("approve(address,uint256)", &[address_arg(bob), uint_arg(U256::MAX)]);
    run_inspector(&mut host, to_address(alice), &approve, false);
    let tf = call_data("transferFrom(address,address,uint256)", &[address_arg(alice), address_arg(bob), uint_arg(U256::from(200))]);
    assert_eq!(run_inspector(&mut host, to_address(bob), &tf, false), returned(Output::Bool(true)));
    let query = call_data("allowance(address,address)", &[address_arg(alice), address_arg(bob)]);
    assert_eq!(run_inspector(&mut host, to_address(bob), &query, false), returned(Output::Uint(Uint256::max_value())));
}

#[test]
fn inspector_mint_needs_minter_or_admin() {
    let bob = alloy_address("0x2222222222222222222222222222222222222222");
    let mut host = TestHost::default();
    let mint = call_data("mint(address,uint256)", &[address_arg(bob), uint_arg(U256::from(50))]);
    assert_eq!(run_inspector(&mut host, to_address(bob), &mint, false), reverted(Output::Message(RevertReason::OnlyMinterOrAdmin)));
    assert_eq!(run_inspector(&mut host, admin(), &mint, false), returned(Output::Empty));
    assert_eq!(host.balance(&to_address(bob)), U256::from(50));
    assert_eq!(host.logs[0].first, Address::zero());
}

#[test]
fn inspector_set_minter_then_minter_mints() {
    let minter = alloy_address("0x4444444444444444444444444444444444444444");
    let bob = alloy_address("0x2222222222222222222222222222222222222222");
    let mut host = TestHost::default();
    let set = call_data("setMinter(address)", &[address_arg(minter)]);
    assert_eq!(run_inspector(&mut host, to_address(bob), &set, false), reverted(Output::Message(RevertReason::OnlyAdminSetMinter)));
    assert_eq!(run_inspector(&mut host, admin(), &set, false), returned(Output::Empty));
    let mint = call_data("mint(address,uint256)", &[address_arg(bob), uint_arg(U256::from(9))]);
    assert_eq!(run_inspector(&mut host, to_address(minter), &mint, false), returned(Output::Empty));
    assert_eq!(host.balance(&to_address(bob)), U256::from(9));
}

#[test]
fn inspector_failed_allowance_store_is_unhandled() {
    let bob = alloy_address("0x2222222222222222222222222222222222222222");
    let mut host = TestHost::default();
    host.fail_storage_store = true;
    let approve = call_data("approve(address,uint256)", &[address_arg(bob), uint_arg(U256::from(1))]);
    assert_eq!(run_inspector(&mut host, admin(), &approve, false), None);
}

#[test]
fn inspector_queries() {
    let mut host = TestHost::default();
    let caller = admin();
    assert_eq!(run_inspector(&mut host, caller, &call_data("decimals()", &[]), false), returned(Output::Uint(Uint256::from_u128(18))));
    assert_eq!(run_inspector(&mut host, caller, &call_data("totalSupply()", &[]), false), returned(Output::Uint(Uint256::max_value())));
    host.balances.insert(caller, U256::from(42));
    let q = call_data("balanceOf(address)", &[address_arg(alloy_address("0xf39Fd6e51aad88F6F4ce6aB8827279cffFb92266"))]);
    assert_eq!(run_inspector(&mut host, caller, &q, false), returned(Output::Uint(Uint256::from_u128(42))));
    assert_eq!(run_inspector(&mut host, caller, &[1, 2, 3, 4], false), None);
}

// ---------------------------------------------------------------- the precompile entry point

#[test]
fn precompile_transfer_through_journal() {
    let alice = addr("0x1111111111111111111111111111111111111111");
    let bob = alloy_address("0x2222222222222222222222222222222222222222");
    let mut host = TestHost::default();
    host.balances.insert(alice, U256::from(100));
    let ok = call_data("transfer(address,uint256)", &[address_arg(bob), uint_arg(U256::from(60))]);
    assert_eq!(run_precompile(&mut host, alice, &ok, false), returned(Output::Bool(true)));
    assert_eq!(host.balance(&to_address(bob)), U256::from(60));
    assert_eq!(run_precompile(&mut host, alice, &ok, false), reverted(Output::Message(RevertReason::NativeTransferFailed)));
}

#[test]
fn precompile_failed_store_reverts_approve() {
    let bob = alloy_address("0x2222222222222222222222222222222222222222");
    let mut host = TestHost::default();
    host.fail_storage_store = true;
    let approve = call_data("approve(address,uint256)", &[address_arg(bob), uint_arg(U256::from(1))]);
    assert_eq!(run_precompile(&mut host, admin(), &approve, false), reverted(Output::Message(RevertReason::FailedToStoreAllowance)));
}

#[test]
fn precompile_mint_transfers_from_zero() {
    let bob = alloy_address("0x2222222222222222222222222222222222222222");
    let mut host = TestHost::default();
    host.balances.insert(Address::zero(), U256::from(1000));
    let mint = call_data("mint(address,uint256)", &[address_arg(bob), uint_arg(U256::from(10))]);
    assert_eq!(run_precompile(&mut host, admin(), &mint, false), returned(Output::Empty));
    assert_eq!(host.balance(&to_address(bob)), U256::from(10));
    assert_eq!(host.logs.len(), 1);
}

// ---------------------------------------------------------------- the PRAF precompile

#[test]
fn praf_mint_and_burn_track_total_supply() {
    let bob = alloy_address("0x2222222222222222222222222222222222222222");
    let mut host = TestHost::default();
    let supply = call_data("totalSupply()", &[]);
    assert_eq!(run_praf(&mut host, admin(), &supply, true), returned(Output::Uint(Uint256::zero())));
    let mint = call_data("mint(address,uint256)", &[address_arg(bob), uint_arg(U256::from(100))]);
    assert_eq!(run_praf(&mut host, to_address(bob), &mint, false), returned(Output::Bool(true)));
    assert_eq!(host.balance(&to_address(bob)), U256::from(100));
    assert_eq!(run_praf(&mut host, admin(), &supply, true), returned(Output::Uint(Uint256::from_u128(100))));
    let burn = call_data("burn(address,uint256)", &[address_arg(bob), uint_arg(U256::from(40))]);
    assert_eq!(run_praf(&mut host, to_address(bob), &burn, false), returned(Output::Bool(true)));
    assert_eq!(host.balance(&to_address(bob)), U256::from(60));
    assert_eq!(run_praf(&mut host, admin(), &supply, true), returned(Output::Uint(Uint256::from_u128(60))));
    let too_much = call_data("burn(address,uint256)", &[address_arg(bob), uint_arg(U256::from(61))]);
    assert_eq!(run_praf(&mut host, to_address(bob), &too_much, false), reverted(Output::Message(RevertReason::InsufficientBalanceForBurn)));
}

#[test]
fn praf_burn_from_another_needs_allowance() {
    let alice = alloy_address("0x1111111111111111111111111111111111111111");
    let bob = alloy_address("0x2222222222222222222222222222222222222222");
    let mut host = TestHost::default();
    host.balances.insert(to_address(alice), U256::from(100));
    let burn = call_data("burn(address,uint256)", &[address_arg(alice), uint_arg(U256::from(10))]);
    assert_eq!(run_praf(&mut host, to_address(bob), &burn, false), reverted(Output::Message(RevertReason::InsufficientAllowanceForBurn)));
    let approve = call_data("approve(address,uint256)", &[address_arg(bob), uint_arg(U256::from(10))]);
    assert_eq!(run_praf(&mut host, to_address(alice), &approve, false), returned(Output::Bool(true)));
    assert_eq!(run_praf(&mut host, to_address(bob), &burn, false), returned(Output::Bool(true)));
    assert_eq!(host.balance(&to_address(alice)), U256::from(90));
}

#[test]
fn praf_transfer_failure_message() {
    let alice = addr("0x1111111111111111111111111111111111111111");
    let bob = alloy_address("0x2222222222222222222222222222222222222222");
    let mut host = TestHost::default();
    let t = call_data("transfer(address,uint256)", &[address_arg(bob), uint_arg(U256::from(1))]);
    assert_eq!(run_praf(&mut host, alice, &t, false), reverted(Output::Message(RevertReason::TransferFailed)));
}

#[test]
fn praf_set_minter_only_admin() {
    let m = alloy_address("0x4444444444444444444444444444444444444444");
    let mut host = TestHost::default();
    let set = call_data("setMinter(address)", &[address_arg(m)]);
    assert_eq!(run_praf(&mut host, to_address(m), &set, false), reverted(Output::Message(RevertReason::OnlyAdmin)));
    assert_eq!(run_praf(&mut host, admin(), &set, false), returned(Output::Empty));
    assert_eq!(host.stored(&minter_slot()), U256::from_be_slice(m.as_slice()));
}

#[test]
fn address_argument_high_bytes_are_ignored_as_alloy_does() {
    let mut w = vec![0xabu8; 12];
    w.extend_from_slice(alloy_address("0x1234567890123456789012345678901234567890").as_slice());
    let theirs: (alloy_primitives::Address,) = alloy_sol_types::SolValue::abi_decode(&w).unwrap();
    let data = call_data("balanceOf(address)", &[w.clone()]);
    assert_eq!(decode_call(&data, Interface::Plain), Some(Erc20Call::BalanceOf { account: to_address(theirs.0) }));
}
