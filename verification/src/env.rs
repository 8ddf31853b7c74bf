//! The EVM environment of an OP-stack block: which hardfork rules apply, and the block
//! fields the EVM sees.

use vstd::prelude::*;

use crate::address::Address;
use crate::uint256::{uint256_of, Uint256};

verus! {

/// The OP-stack hardforks, oldest first.
#[derive(Clone, Copy, Debug, PartialEq, Eq, Structural)]
pub enum OpSpec {
    Bedrock,
    Regolith,
    Canyon,
    Ecotone,
    Fjord,
    Granite,
    Holocene,
    Isthmus,
    Jovian,
    Karst,
    Interop,
}

/// The Merge's number among the Ethereum hardforks.
pub const SPEC_MERGE: u8 = 15;

/// Shanghai's number among the Ethereum hardforks.
pub const SPEC_SHANGHAI: u8 = 16;

/// Cancun's number among the Ethereum hardforks.
pub const SPEC_CANCUN: u8 = 17;

/// Prague's number among the Ethereum hardforks.
pub const SPEC_PRAGUE: u8 = 18;

/// Osaka's number among the Ethereum hardforks.
pub const SPEC_OSAKA: u8 = 19;

/// The Ethereum hardfork whose rules an OP-stack hardfork builds on, by its number.
pub open spec fn spec_eth_spec(spec: OpSpec) -> u8 {
    match spec {
        OpSpec::Bedrock | OpSpec::Regolith => SPEC_MERGE,
        OpSpec::Canyon => SPEC_SHANGHAI,
        OpSpec::Ecotone | OpSpec::Fjord | OpSpec::Granite | OpSpec::Holocene => SPEC_CANCUN,
        OpSpec::Isthmus | OpSpec::Jovian | OpSpec::Interop => SPEC_PRAGUE,
        OpSpec::Karst => SPEC_OSAKA,
    }
}

impl OpSpec {
    /// The Ethereum hardfork whose rules this one builds on, by its number.
    pub fn into_eth_spec(self) -> (n: u8)
        ensures
            n == spec_eth_spec(self),
    {
        match self {
            OpSpec::Bedrock | OpSpec::Regolith => SPEC_MERGE,
            OpSpec::Canyon => SPEC_SHANGHAI,
            OpSpec::Ecotone | OpSpec::Fjord | OpSpec::Granite | OpSpec::Holocene => SPEC_CANCUN,
            OpSpec::Isthmus | OpSpec::Jovian | OpSpec::Interop => SPEC_PRAGUE,
            OpSpec::Karst => SPEC_OSAKA,
        }
    }
}

/// Which OP-stack hardforks are active at a given time.
#[derive(Clone, Copy, Debug, PartialEq, Eq, Structural)]
pub struct ActiveForks {
    pub regolith: bool,
    pub canyon: bool,
    pub ecotone: bool,
    pub fjord: bool,
    pub granite: bool,
    pub holocene: bool,
    pub isthmus: bool,
    pub jovian: bool,
    pub karst: bool,
    pub interop: bool,
}

/// The newest active hardfork, Bedrock where none after it is.
pub open spec fn spec_spec_after_bedrock(f: ActiveForks) -> OpSpec {
    if f.interop {
        OpSpec::Interop
    } else if f.karst {
        OpSpec::Karst
    } else if f.jovian {
        OpSpec::Jovian
    } else if f.isthmus {
        OpSpec::Isthmus
    } else if f.holocene {
        OpSpec::Holocene
    } else if f.granite {
        OpSpec::Granite
    } else if f.fjord {
        OpSpec::Fjord
    } else if f.ecotone {
        OpSpec::Ecotone
    } else if f.canyon {
        OpSpec::Canyon
    } else if f.regolith {
        OpSpec::Regolith
    } else {
        OpSpec::Bedrock
    }
}

/// The hardfork whose rules apply, given which hardforks are active: the newest of them.
pub fn spec_by_timestamp_after_bedrock(f: &ActiveForks) -> (s: OpSpec)
    ensures
        s == spec_spec_after_bedrock(*f),
{
    if f.interop {
        OpSpec::Interop
    } else if f.karst {
        OpSpec::Karst
    } else if f.jovian {
        OpSpec::Jovian
    } else if f.isthmus {
        OpSpec::Isthmus
    } else if f.holocene {
        OpSpec::Holocene
    } else if f.granite {
        OpSpec::Granite
    } else if f.fjord {
        OpSpec::Fjord
    } else if f.ecotone {
        OpSpec::Ecotone
    } else if f.canyon {
        OpSpec::Canyon
    } else if f.regolith {
        OpSpec::Regolith
    } else {
        OpSpec::Bedrock
    }
}

/// The fields of a block that the EVM environment is made from.
#[derive(Clone, Copy, Debug, PartialEq, Eq, Structural)]
pub struct EvmEnvInput {
    pub timestamp: u64,
    pub number: u64,
    pub beneficiary: Address,
    pub mix_hash: Option<Uint256>,
    pub difficulty: Uint256,
    pub gas_limit: u64,
    pub excess_blob_gas: Option<u64>,
    pub base_fee_per_gas: u64,
}

/// The blob gas fields of a block from Cancun on.
#[derive(Clone, Copy, Debug, PartialEq, Eq, Structural)]
pub struct BlobExcessGasAndPrice {
    pub excess_blob_gas: u64,
    pub blob_gasprice: u128,
}

/// The block as the EVM sees it.
#[derive(Clone, Copy, Debug, PartialEq, Eq, Structural)]
pub struct BlockEnv {
    pub number: Uint256,
    pub beneficiary: Address,
    pub timestamp: Uint256,
    pub difficulty: Uint256,
    pub prevrandao: Option<Uint256>,
    pub gas_limit: u64,
    pub basefee: u64,
    pub blob_excess_gas_and_price: Option<BlobExcessGasAndPrice>,
}

/// The EVM environment: the chain, the hardfork rules, and the block.
#[derive(Clone, Copy, Debug, PartialEq, Eq, Structural)]
pub struct OpEvmEnv {
    pub chain_id: u64,
    pub spec: OpSpec,
    pub block: BlockEnv,
}

/// The environment of a block under hardfork `spec`: from the Merge on (every OP-stack
/// hardfork), the difficulty is zero and the previous RANDAO is the block's mix hash; from
/// Cancun on, the blob gas fields are present with zero excess gas and a blob gas price of one.
pub open spec fn spec_for_op(input: EvmEnvInput, spec: OpSpec, chain_id: u64) -> OpEvmEnv {
    let eth = spec_eth_spec(spec);
    let merged = eth >= SPEC_MERGE;
    OpEvmEnv {
        chain_id,
        spec,
        block: BlockEnv {
            number: uint256_of(input.number as nat),
            beneficiary: input.beneficiary,
            timestamp: uint256_of(input.timestamp as nat),
            difficulty: if merged {
                uint256_of(0)
            } else {
                input.difficulty
            },
            prevrandao: if merged {
                input.mix_hash
            } else {
                None
            },
            gas_limit: input.gas_limit,
            basefee: input.base_fee_per_gas,
            blob_excess_gas_and_price: if eth >= SPEC_CANCUN {
                Some(BlobExcessGasAndPrice { excess_blob_gas: 0, blob_gasprice: 1 })
            } else {
                None
            },
        },
    }
}

/// Builds the environment of a block under hardfork `spec` on chain `chain_id`.
pub fn for_op(input: &EvmEnvInput, spec: OpSpec, chain_id: u64) -> (env: OpEvmEnv)
    ensures
        env == spec_for_op(*input, spec, chain_id),
        env.chain_id == chain_id,
        env.spec == spec,
        env.block.number@ == input.number as nat,
        env.block.timestamp@ == input.timestamp as nat,
        env.block.beneficiary == input.beneficiary,
        env.block.gas_limit == input.gas_limit,
        env.block.basefee == input.base_fee_per_gas,
        env.block.difficulty@ == 0,
        env.block.prevrandao == input.mix_hash,
        env.block.blob_excess_gas_and_price is Some <==> spec_eth_spec(spec) >= SPEC_CANCUN,
        env.block.blob_excess_gas_and_price matches Some(g) ==> g.excess_blob_gas == 0
            && g.blob_gasprice == 1,
{
    let eth = spec.into_eth_spec();
    proof {
        crate::uint256::lemma_uint256_of(input.number as nat);
        crate::uint256::lemma_uint256_of(input.timestamp as nat);
        crate::uint256::lemma_uint256_of(0);
        crate::bytes::lemma_pow256_32();
    }
    let blob_excess_gas_and_price = if eth >= SPEC_CANCUN {
        Some(BlobExcessGasAndPrice { excess_blob_gas: 0, blob_gasprice: 1 })
    } else {
        None
    };
    let is_merge_active = eth >= SPEC_MERGE;
    let number = Uint256::from_u128(input.number as u128);
    let timestamp = Uint256::from_u128(input.timestamp as u128);
    let zero = Uint256::zero();
    proof {
        crate::uint256::lemma_uint256_of_view(number);
        crate::uint256::lemma_uint256_of_view(timestamp);
        crate::uint256::lemma_uint256_of_view(zero);
    }
    OpEvmEnv {
        chain_id,
        spec,
        block: BlockEnv {
            number,
            beneficiary: input.beneficiary,
            timestamp,
            difficulty: if is_merge_active {
                zero
            } else {
                input.difficulty
            },
            prevrandao: if is_merge_active {
                input.mix_hash
            } else {
                None
            },
            gas_limit: input.gas_limit,
            basefee: input.base_fee_per_gas,
            blob_excess_gas_and_price,
        },
    }
}

/// A word converted to a `u64`, saturating at `u64::MAX`.
pub open spec fn spec_saturating_to_u64(v: Uint256) -> u64 {
    if v@ > u64::MAX {
        u64::MAX
    } else {
        v@ as u64
    }
}

/// A word converted to a `u64`, saturating at `u64::MAX`.
pub fn saturating_to_u64(v: &Uint256) -> (r: u64)
    ensures
        r == spec_saturating_to_u64(*v),
{
    if v.hi == 0 && v.lo <= u64::MAX as u128 {
        v.lo as u64
    } else {
        proof {
            let t = crate::bytes::two_128();
            assert(v@ > u64::MAX) by (nonlinear_arith)
                requires
                    v@ == v.hi * t + v.lo,
                    v.hi > 0 || v.lo > u64::MAX,
                    t == crate::bytes::two_128(),
            ;
        }
        u64::MAX
    }
}

/// The fields of an execution payload that the environment is made from.
#[derive(Clone, Copy, Debug, PartialEq, Eq, Structural)]
pub struct PayloadFields {
    pub timestamp: u64,
    pub block_number: u64,
    pub fee_recipient: Address,
    pub prev_randao: Uint256,
    pub gas_limit: u64,
    pub excess_blob_gas: Option<u64>,
    pub base_fee_per_gas: Uint256,
}

/// The environment input of an execution payload: its previous RANDAO serves as both mix
/// hash and difficulty, and its base fee is cut down to a `u64`, saturating.
pub open spec fn spec_from_op_payload(p: PayloadFields) -> EvmEnvInput {
    EvmEnvInput {
        timestamp: p.timestamp,
        number: p.block_number,
        beneficiary: p.fee_recipient,
        mix_hash: Some(p.prev_randao),
        difficulty: p.prev_randao,
        gas_limit: p.gas_limit,
        excess_blob_gas: p.excess_blob_gas,
        base_fee_per_gas: spec_saturating_to_u64(p.base_fee_per_gas),
    }
}

impl EvmEnvInput {
    /// The environment input of an execution payload.
    pub fn from_op_payload(p: &PayloadFields) -> (input: EvmEnvInput)
        ensures
            input == spec_from_op_payload(*p),
            input.timestamp == p.timestamp,
            input.number == p.block_number,
            input.beneficiary == p.fee_recipient,
            input.mix_hash == Some(p.prev_randao),
            input.difficulty == p.prev_randao,
            input.gas_limit == p.gas_limit,
            input.excess_blob_gas == p.excess_blob_gas,
            p.base_fee_per_gas@ <= u64::MAX ==> input.base_fee_per_gas as nat == p.base_fee_per_gas@,
            p.base_fee_per_gas@ > u64::MAX ==> input.base_fee_per_gas == u64::MAX,
    {
        EvmEnvInput {
            timestamp: p.timestamp,
            number: p.block_number,
            beneficiary: p.fee_recipient,
            mix_hash: Some(p.prev_randao),
            difficulty: p.prev_randao,
            gas_limit: p.gas_limit,
            excess_blob_gas: p.excess_blob_gas,
            base_fee_per_gas: saturating_to_u64(&p.base_fee_per_gas),
        }
    }
}

/// Every OP-stack hardfork builds on the Merge: the environment's difficulty is always zero
/// and its previous RANDAO is always the block's mix hash.
pub proof fn law_op_env_is_post_merge(input: EvmEnvInput, spec: OpSpec, chain_id: u64)
    ensures
        spec_for_op(input, spec, chain_id).block.difficulty@ == 0,
        spec_for_op(input, spec, chain_id).block.prevrandao == input.mix_hash,
{
    crate::uint256::lemma_uint256_of(0);
}

/// The blob gas fields are present exactly from Ecotone (which builds on Cancun) on.
pub proof fn law_op_env_blob_fields_from_ecotone(input: EvmEnvInput, spec: OpSpec, chain_id: u64)
    ensures
        spec_for_op(input, spec, chain_id).block.blob_excess_gas_and_price is Some <==> !(spec
            == OpSpec::Bedrock || spec == OpSpec::Regolith || spec == OpSpec::Canyon),
{
}

/// The environment carries the chain, the hardfork, and the block's beneficiary, gas limit
/// and base fee unchanged, with every OP-stack hardfork in effect after the Merge.
pub proof fn law_op_env_keeps_block_fields(input: EvmEnvInput, spec: OpSpec, chain_id: u64)
    ensures
        spec_for_op(input, spec, chain_id).chain_id == chain_id,
        spec_for_op(input, spec, chain_id).spec == spec,
        spec_for_op(input, spec, chain_id).block.beneficiary == input.beneficiary,
        spec_for_op(input, spec, chain_id).block.gas_limit == input.gas_limit,
        spec_for_op(input, spec, chain_id).block.basefee == input.base_fee_per_gas,
        spec_eth_spec(spec) >= SPEC_MERGE,
{
}

/// The environment input of a payload keeps the payload's block number, time, fee recipient,
/// gas limit and excess blob gas; its base fee is the payload's where that fits in a `u64`,
/// and `u64::MAX` otherwise.
pub proof fn law_payload_input_keeps_fields(p: PayloadFields)
    ensures
        spec_from_op_payload(p).number == p.block_number,
        spec_from_op_payload(p).timestamp == p.timestamp,
        spec_from_op_payload(p).beneficiary == p.fee_recipient,
        spec_from_op_payload(p).gas_limit == p.gas_limit,
        spec_from_op_payload(p).excess_blob_gas == p.excess_blob_gas,
        spec_from_op_payload(p).mix_hash == Some(p.prev_randao),
        p.base_fee_per_gas@ <= u64::MAX ==> spec_from_op_payload(p).base_fee_per_gas as nat
            == p.base_fee_per_gas@,
        p.base_fee_per_gas@ > u64::MAX ==> spec_from_op_payload(p).base_fee_per_gas == u64::MAX,
{
}

/// The block number and time are carried over as words of the same value.
pub proof fn law_op_env_keeps_number_and_time(input: EvmEnvInput, spec: OpSpec, chain_id: u64)
    ensures
        spec_for_op(input, spec, chain_id).block.number@ == input.number as nat,
        spec_for_op(input, spec, chain_id).block.timestamp@ == input.timestamp as nat,
{
    crate::uint256::lemma_uint256_of(input.number as nat);
    crate::uint256::lemma_uint256_of(input.timestamp as nat);
    crate::bytes::lemma_pow256_32();
}

/// The place of a hardfork in the order in which they activate, Bedrock first.
pub open spec fn fork_rank(s: OpSpec) -> nat {
    match s {
        OpSpec::Bedrock => 0,
        OpSpec::Regolith => 1,
        OpSpec::Canyon => 2,
        OpSpec::Ecotone => 3,
        OpSpec::Fjord => 4,
        OpSpec::Granite => 5,
        OpSpec::Holocene => 6,
        OpSpec::Isthmus => 7,
        OpSpec::Jovian => 8,
        OpSpec::Karst => 9,
        OpSpec::Interop => 10,
    }
}

/// Whether a hardfork is active; Bedrock always is.
pub open spec fn fork_active(f: ActiveForks, s: OpSpec) -> bool {
    match s {
        OpSpec::Bedrock => true,
        OpSpec::Regolith => f.regolith,
        OpSpec::Canyon => f.canyon,
        OpSpec::Ecotone => f.ecotone,
        OpSpec::Fjord => f.fjord,
        OpSpec::Granite => f.granite,
        OpSpec::Holocene => f.holocene,
        OpSpec::Isthmus => f.isthmus,
        OpSpec::Jovian => f.jovian,
        OpSpec::Karst => f.karst,
        OpSpec::Interop => f.interop,
    }
}

/// The hardfork whose rules apply is an active one, and no active hardfork comes after it.
pub proof fn law_fork_is_newest_active(f: ActiveForks)
    ensures
        fork_active(f, spec_spec_after_bedrock(f)),
        forall|t: OpSpec| #[trigger] fork_active(f, t) ==> fork_rank(t) <= fork_rank(
            spec_spec_after_bedrock(f),
        ),
{
}

} // verus!
