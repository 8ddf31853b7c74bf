//! What a token call asks of the EVM host, what the host answers, and what the call returns.

use vstd::prelude::*;
use vstd::string::StringSliceAdditionalSpecFns;

use crate::abi::{
    abi_encode_bool, abi_encode_string, abi_encode_uint_word, lemma_be_bytes_unique_of,
    spec_encode_bool, spec_encode_string_tuple, spec_encode_uint,
};
use crate::address::Address;
use crate::uint256::Uint256;

verus! {

/// Why a call reverted; the output of a revert with a reason is the reason's text.
#[derive(Clone, Copy, Debug, PartialEq, Eq, Structural)]
pub enum RevertReason {
    InsufficientBalance,
    InsufficientAllowance,
    OnlyMinterOrAdmin,
    OnlyAdminSetMinter,
    NativeTransferFailed,
    DatabaseError,
    FailedToStoreAllowance,
    FailedToMint,
    TransferFailed,
    FailedToLoadMintRecipient,
    InsufficientAllowanceForBurn,
    InsufficientBalanceForBurn,
    FailedToLoadBurnAccount,
    OnlyAdmin,
}

/// The text of a revert reason.
pub open spec fn spec_reason_text(r: RevertReason) -> &'static str {
    match r {
        RevertReason::InsufficientBalance => "Insufficient balance",
        RevertReason::InsufficientAllowance => "Insufficient allowance",
        RevertReason::OnlyMinterOrAdmin => "Only authorized minter or admin can call mint",
        RevertReason::OnlyAdminSetMinter => "Only admin can set minter",
        RevertReason::NativeTransferFailed => "Native balance transfer failed",
        RevertReason::DatabaseError => "Database error during transfer",
        RevertReason::FailedToStoreAllowance => "Failed to store allowance",
        RevertReason::FailedToMint => "Failed to mint native tokens",
        RevertReason::TransferFailed => "Transfer failed",
        RevertReason::FailedToLoadMintRecipient => "Failed to load recipient account for minting",
        RevertReason::InsufficientAllowanceForBurn => "Insufficient allowance for burn",
        RevertReason::InsufficientBalanceForBurn => "Insufficient balance for burn",
        RevertReason::FailedToLoadBurnAccount => "Failed to load account for burn",
        RevertReason::OnlyAdmin => "Only admin",
    }
}

/// The text of a revert reason.
pub fn reason_text(r: RevertReason) -> (s: &'static str)
    ensures
        s@ == spec_reason_text(r)@,
{
    match r {
        RevertReason::InsufficientBalance => "Insufficient balance",
        RevertReason::InsufficientAllowance => "Insufficient allowance",
        RevertReason::OnlyMinterOrAdmin => "Only authorized minter or admin can call mint",
        RevertReason::OnlyAdminSetMinter => "Only admin can set minter",
        RevertReason::NativeTransferFailed => "Native balance transfer failed",
        RevertReason::DatabaseError => "Database error during transfer",
        RevertReason::FailedToStoreAllowance => "Failed to store allowance",
        RevertReason::FailedToMint => "Failed to mint native tokens",
        RevertReason::TransferFailed => "Transfer failed",
        RevertReason::FailedToLoadMintRecipient => "Failed to load recipient account for minting",
        RevertReason::InsufficientAllowanceForBurn => "Insufficient allowance for burn",
        RevertReason::InsufficientBalanceForBurn => "Insufficient balance for burn",
        RevertReason::FailedToLoadBurnAccount => "Failed to load account for burn",
        RevertReason::OnlyAdmin => "Only admin",
    }
}

/// What a call returns, before it is encoded.
#[derive(Clone, Copy, Debug, PartialEq, Eq, Structural)]
pub enum Output {
    /// No return data.
    Empty,
    /// The text of a revert reason.
    Message(RevertReason),
    /// One `uint256`.
    Uint(Uint256),
    /// One `bool`.
    Bool(bool),
    /// The token's name, `"PRAPH"`, as a `(string,)` tuple.
    Name,
    /// The token's symbol, `"PRAF"`, as a `(string,)` tuple.
    Symbol,
}

/// The token's name.
pub open spec fn spec_token_name() -> &'static str {
    "PRAPH"
}

/// The token's symbol.
pub open spec fn spec_token_symbol() -> &'static str {
    "PRAF"
}

/// The return data bytes of an output.
pub open spec fn spec_output_bytes(o: Output) -> Seq<u8> {
    match o {
        Output::Empty => Seq::empty(),
        Output::Message(r) => spec_reason_text(r).spec_bytes(),
        Output::Uint(v) => spec_encode_uint(v@),
        Output::Bool(b) => spec_encode_bool(b),
        Output::Name => spec_encode_string_tuple(spec_token_name().spec_bytes()),
        Output::Symbol => spec_encode_string_tuple(spec_token_symbol().spec_bytes()),
    }
}

/// The return data bytes of an output.
pub fn output_bytes(o: &Output) -> (out: Vec<u8>)
    ensures
        out@ == spec_output_bytes(*o),
{
    match o {
        Output::Empty => Vec::new(),
        Output::Message(r) => {
            let s = reason_text(*r);
            let b = s.as_bytes();
            let mut out: Vec<u8> = Vec::new();
            let mut i: usize = 0;
            while i < b.len()
                invariant
                    i <= b@.len(),
                    out@ =~= b@.subrange(0, i as int),
                decreases b@.len() - i,
            {
                out.push(b[i]);
                i = i + 1;
            }
            assert(b@.subrange(0, b@.len() as int) =~= b@);
            out
        },
        Output::Uint(v) => {
            let word = v.to_be_bytes();
            proof {
                lemma_be_bytes_unique_of(word@, v@);
            }
            abi_encode_uint_word(&word)
        },
        Output::Bool(b) => abi_encode_bool(*b),
        Output::Name => abi_encode_string("PRAPH"),
        Output::Symbol => abi_encode_string("PRAF"),
    }
}

/// Whether a call returned or reverted.
#[derive(Clone, Copy, Debug, PartialEq, Eq, Structural)]
pub enum Outcome {
    Return,
    Revert,
}

/// The result of a token call that the token handled. It consumes no gas.
#[derive(Clone, Copy, Debug, PartialEq, Eq, Structural)]
pub struct CallResult {
    pub outcome: Outcome,
    pub output: Output,
}

/// A successful result.
pub open spec fn returned(output: Output) -> CallResult {
    CallResult { outcome: Outcome::Return, output }
}

/// A reverted result.
pub open spec fn reverted(output: Output) -> CallResult {
    CallResult { outcome: Outcome::Revert, output }
}

/// The two events of the token.
#[derive(Clone, Copy, Debug, PartialEq, Eq, Structural)]
pub enum EventKind {
    /// `Transfer(address indexed from, address indexed to, uint256 value)`
    Transfer,
    /// `Approval(address indexed owner, address indexed spender, uint256 value)`
    Approval,
}

/// A log that the token contract emits: the event's signature hash and the two addresses are
/// its topics, the amount is its data.
#[derive(Clone, Copy, Debug, PartialEq, Eq, Structural)]
pub struct TokenLog {
    pub kind: EventKind,
    pub first: Address,
    pub second: Address,
    pub amount: Uint256,
}

/// The first topic: the Keccak-256 digest of the event's signature.
pub open spec fn spec_event_signature_hash(kind: EventKind) -> Uint256 {
    match kind {
        EventKind::Transfer => Uint256 {
            hi: 0xddf252ad1be2c89b69c2b068fc378daa,
            lo: 0x952ba7f163c4a11628f55a4df523b3ef,
        },
        EventKind::Approval => Uint256 {
            hi: 0x8c5be1e5ebec7d5bd14f71427d1e84f3,
            lo: 0xdd0314c0f7b2291e5b200ac8c7c3b925,
        },
    }
}

/// The signature hash of an event, as `sol!` would compute it.
pub fn event_signature_hash(kind: EventKind) -> (h: Uint256)
    ensures
        h == spec_event_signature_hash(kind),
{
    match kind {
        EventKind::Transfer => Uint256 {
            hi: 0xddf252ad1be2c89b69c2b068fc378daa,
            lo: 0x952ba7f163c4a11628f55a4df523b3ef,
        },
        EventKind::Approval => Uint256 {
            hi: 0x8c5be1e5ebec7d5bd14f71427d1e84f3,
            lo: 0xdd0314c0f7b2291e5b200ac8c7c3b925,
        },
    }
}

/// The three topics of a log, each as a word: the signature hash and the two addresses.
pub fn log_topics(log: &TokenLog) -> (t: (Uint256, Uint256, Uint256))
    ensures
        t.0 == spec_event_signature_hash(log.kind),
        t.1@ == log.first@,
        t.2@ == log.second@,
{
    (event_signature_hash(log.kind), log.first.to_word(), log.second.to_word())
}

/// The data of a log: the amount, ABI-encoded.
pub fn log_data(log: &TokenLog) -> (d: Vec<u8>)
    ensures
        d@ == spec_encode_uint(log.amount@),
{
    output_bytes(&Output::Uint(log.amount))
}

/// How a journal transfer of native balance ended.
#[derive(Clone, Copy, Debug, PartialEq, Eq, Structural)]
pub enum TransferStatus {
    /// The balance moved.
    Moved,
    /// The journal refused it (insufficient funds, overflow, ...).
    Refused,
    /// The database failed.
    DatabaseError,
}

/// What a token call asks the host to do next. The token contract is always
/// `Address::native_token()`.
#[derive(Clone, Copy, Debug, PartialEq, Eq, Structural)]
pub enum HostRequest {
    /// Load the account and answer its balance (`Host::balance`), with `Value`.
    LoadBalance { account: Address },
    /// Answer the token contract's storage at `slot` (`Host::sload`), with `Value`.
    StorageLoad { slot: Uint256 },
    /// Write the token contract's storage (`Host::sstore`); answer `Done` with whether it
    /// succeeded.
    StorageStore { slot: Uint256, value: Uint256 },
    /// Answer the balance of the account's entry in the journaled state, with `Value`.
    EntryBalance { account: Address },
    /// Set the balance of the account's entry in the journaled state and mark it touched;
    /// answer `Done` with whether the entry was there.
    SetEntryBalance { account: Address, balance: Uint256 },
    /// Move native balance through the journal; answer `Transfer`.
    JournalTransfer { from: Address, to: Address, amount: Uint256 },
    /// Load the account for update and answer its balance, with `Value`.
    LoadAccountBalance { account: Address },
    /// Load the account for update and set its balance; answer `Done`.
    SetAccountBalance { account: Address, balance: Uint256 },
    /// Append the log to the journal; answer `Ack`.
    EmitLog { log: TokenLog },
}

/// The host's answer to a request.
#[derive(Clone, Copy, Debug, PartialEq, Eq, Structural)]
pub enum HostReply {
    /// A value, or `None` where the host could not produce it.
    Value(Option<Uint256>),
    /// Whether the requested write succeeded.
    Done(bool),
    /// How a journal transfer ended.
    Transfer(TransferStatus),
    /// The request was carried out.
    Ack,
}

/// The next thing a running call does: ask the host, or finish. A call that finishes with
/// `None` was not handled (a value the host could not give, a failed write, an overflow), and
/// the EVM goes on as if the token were absent.
#[derive(Clone, Copy, Debug, PartialEq, Eq, Structural)]
pub enum Step {
    Request(HostRequest),
    Finish(Option<CallResult>),
}

} // verus!
