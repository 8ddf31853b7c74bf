//! A host that keeps its state as a plain ledger, and what a token call does to that ledger.
//!
//! The ledger holds the balance of every account, the token contract's storage and the logs
//! emitted so far. Serving a request from the ledger always succeeds; a journal transfer
//! moves balance as the journal does: it is refused when the sender's balance is short, and
//! when the recipient's balance would overflow after the sender was debited.

use vstd::prelude::*;

use crate::address::Address;
use crate::host::{HostReply, HostRequest, TokenLog, TransferStatus};
use crate::uint256::{u256_max, uint256_of, Uint256};

verus! {

/// Balances, the token contract's storage, and the emitted logs.
pub struct Ledger {
    pub balances: Map<Address, Uint256>,
    pub storage: Map<Uint256, Uint256>,
    pub logs: Seq<TokenLog>,
}

/// The balance of an account; an account the ledger does not list holds zero.
pub open spec fn balance_of(l: Ledger, a: Address) -> Uint256 {
    if l.balances.dom().contains(a) {
        l.balances[a]
    } else {
        uint256_of(0)
    }
}

/// The value of a storage slot; a slot never written holds zero.
pub open spec fn storage_at(l: Ledger, s: Uint256) -> Uint256 {
    if l.storage.dom().contains(s) {
        l.storage[s]
    } else {
        uint256_of(0)
    }
}

pub open spec fn with_balance(l: Ledger, a: Address, v: Uint256) -> Ledger {
    Ledger { balances: l.balances.insert(a, v), ..l }
}

pub open spec fn with_storage(l: Ledger, s: Uint256, v: Uint256) -> Ledger {
    Ledger { storage: l.storage.insert(s, v), ..l }
}

pub open spec fn with_log(l: Ledger, log: TokenLog) -> Ledger {
    Ledger { logs: l.logs.push(log), ..l }
}

/// A journal transfer on the ledger: how it ends, and the ledger afterwards. A short
/// sender balance refuses it and changes nothing; a transfer to oneself changes nothing; a
/// credit that would overflow refuses it after the sender was debited.
pub open spec fn journal_transfer(l: Ledger, from: Address, to: Address, amount: Uint256) -> (
    TransferStatus,
    Ledger,
) {
    if balance_of(l, from)@ < amount@ {
        (TransferStatus::Refused, l)
    } else if from == to {
        (TransferStatus::Moved, l)
    } else {
        let debited = with_balance(l, from, uint256_of((balance_of(l, from)@ - amount@) as nat));
        if balance_of(l, to)@ + amount@ > u256_max() {
            (TransferStatus::Refused, debited)
        } else {
            (
                TransferStatus::Moved,
                with_balance(debited, to, uint256_of(balance_of(l, to)@ + amount@)),
            )
        }
    }
}

/// What the ledger answers to a request.
pub open spec fn ledger_reply(l: Ledger, req: HostRequest) -> HostReply {
    match req {
        HostRequest::LoadBalance { account } => HostReply::Value(Some(balance_of(l, account))),
        HostRequest::StorageLoad { slot } => HostReply::Value(Some(storage_at(l, slot))),
        HostRequest::StorageStore { .. } => HostReply::Done(true),
        HostRequest::EntryBalance { account } => HostReply::Value(Some(balance_of(l, account))),
        HostRequest::SetEntryBalance { .. } => HostReply::Done(true),
        HostRequest::JournalTransfer { from, to, amount } => HostReply::Transfer(
            journal_transfer(l, from, to, amount).0,
        ),
        HostRequest::LoadAccountBalance { account } => HostReply::Value(
            Some(balance_of(l, account)),
        ),
        HostRequest::SetAccountBalance { .. } => HostReply::Done(true),
        HostRequest::EmitLog { .. } => HostReply::Ack,
    }
}

/// The ledger after serving a request.
pub open spec fn ledger_apply(l: Ledger, req: HostRequest) -> Ledger {
    match req {
        HostRequest::StorageStore { slot, value } => with_storage(l, slot, value),
        HostRequest::SetEntryBalance { account, balance } => with_balance(l, account, balance),
        HostRequest::SetAccountBalance { account, balance } => with_balance(l, account, balance),
        HostRequest::JournalTransfer { from, to, amount } => journal_transfer(l, from, to, amount).1,
        HostRequest::EmitLog { log } => with_log(l, log),
        _ => l,
    }
}

} // verus!
