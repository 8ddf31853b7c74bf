//! Transactions as the EVM takes them: the transaction environment made from a deposit, and
//! the OP-stack transaction with its encoded envelope and deposit parts.

use vstd::prelude::*;

use crate::address::Address;
use crate::uint256::{uint256_of, Uint256};

verus! {

/// The type byte of a deposit transaction, `0x7E`.
pub const DEPOSIT_TX_TYPE: u8 = 0x7e;

/// What a transaction does: create a contract, or call an address.
#[derive(Clone, Copy, Debug, PartialEq, Eq, Structural)]
pub enum TxKind {
    Create,
    Call(Address),
}

/// A deposit transaction.
#[derive(Clone, Debug)]
pub struct DepositTx {
    pub source_hash: Uint256,
    pub from: Address,
    pub to: TxKind,
    pub mint: u128,
    pub value: Uint256,
    pub gas_limit: u64,
    pub is_system_transaction: bool,
    pub input: Vec<u8>,
}

/// The fields of a transaction environment that a conversion sets; every other field keeps
/// its default.
#[derive(Clone, Debug)]
pub struct TxEnv {
    pub tx_type: u8,
    pub caller: Address,
    pub gas_limit: u64,
    pub kind: TxKind,
    pub value: Uint256,
    pub data: Vec<u8>,
}

/// The parts of an OP-stack transaction that only deposits have.
#[derive(Clone, Copy, Debug, PartialEq, Eq, Structural)]
pub struct DepositParts {
    pub source_hash: Uint256,
    pub mint: Option<u128>,
    pub is_system_transaction: bool,
}

/// An OP-stack transaction: the transaction environment, the transaction's encoded envelope,
/// and its deposit parts.
#[derive(Clone, Debug)]
pub struct OpTransaction {
    pub base: TxEnv,
    pub enveloped_tx: Option<Vec<u8>>,
    pub deposit: DepositParts,
}

/// The deposit parts of a transaction that is not a deposit.
pub open spec fn spec_no_deposit() -> DepositParts {
    DepositParts { source_hash: uint256_of(0), mint: None, is_system_transaction: false }
}

/// The transaction environment of a deposit sent on behalf of `caller`: the deposit's type,
/// the caller (the deposit's own `from` field is not used), and its gas limit, destination,
/// value and input.
pub open spec fn spec_tx_env_of_deposit(env: TxEnv, tx: DepositTx, caller: Address) -> bool {
    &&& env.tx_type == DEPOSIT_TX_TYPE
    &&& env.caller == caller
    &&& env.gas_limit == tx.gas_limit
    &&& env.kind == tx.to
    &&& env.value == tx.value
    &&& env.data@ == tx.input@
}

fn copy_bytes(b: &Vec<u8>) -> (out: Vec<u8>)
    ensures
        out@ == b@,
{
    let mut out: Vec<u8> = Vec::new();
    let mut i: usize = 0;
    while i < b.len()
        invariant
            i <= b@.len(),
            out@ =~= b@.subrange(0, i as int),
        decreases b@.len() - i,
    {
        out.push(b[i]);
        i = i + 1;
    }
    assert(b@.subrange(0, b@.len() as int) =~= b@);
    out
}

impl TxEnv {
    /// The transaction environment of a deposit sent on behalf of `caller`.
    pub fn from_deposit(tx: &DepositTx, caller: Address) -> (env: TxEnv)
        ensures
            spec_tx_env_of_deposit(env, *tx, caller),
    {
        TxEnv {
            tx_type: DEPOSIT_TX_TYPE,
            caller,
            gas_limit: tx.gas_limit,
            kind: tx.to,
            value: tx.value,
            data: copy_bytes(&tx.input),
        }
    }
}

impl OpTransaction {
    /// The OP-stack transaction of a deposit with its encoded envelope: the deposit's
    /// transaction environment, the envelope, and its source hash, mint and system flag.
    pub fn from_encoded_deposit(tx: &DepositTx, caller: Address, encoded: Vec<u8>) -> (t: OpTransaction)
        ensures
            spec_tx_env_of_deposit(t.base, *tx, caller),
            t.enveloped_tx == Some(encoded),
            t.deposit == (DepositParts {
                source_hash: tx.source_hash,
                mint: Some(tx.mint),
                is_system_transaction: tx.is_system_transaction,
            }),
    {
        OpTransaction {
            base: TxEnv::from_deposit(tx, caller),
            enveloped_tx: Some(encoded),
            deposit: DepositParts {
                source_hash: tx.source_hash,
                mint: Some(tx.mint),
                is_system_transaction: tx.is_system_transaction,
            },
        }
    }

    /// The OP-stack transaction of a transaction that is not a deposit, from its transaction
    /// environment and encoded envelope.
    pub fn from_encoded(base: TxEnv, encoded: Vec<u8>) -> (t: OpTransaction)
        ensures
            t.base == base,
            t.enveloped_tx == Some(encoded),
            t.deposit == spec_no_deposit(),
    {
        let z = Uint256::zero();
        proof {
            crate::uint256::lemma_uint256_of_view(z);
        }
        OpTransaction {
            base,
            enveloped_tx: Some(encoded),
            deposit: DepositParts { source_hash: z, mint: None, is_system_transaction: false },
        }
    }

    /// The OP-stack transaction of a call request: its transaction environment, an empty
    /// envelope, and no deposit parts.
    pub fn from_request(base: TxEnv) -> (t: OpTransaction)
        ensures
            t.base == base,
            t.enveloped_tx matches Some(e) && e@.len() == 0,
            t.deposit == spec_no_deposit(),
    {
        OpTransaction::from_encoded(base, Vec::new())
    }
}

} // verus!
