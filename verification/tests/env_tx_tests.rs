use alloy_eips::Typed2718;
use op_revm::OpSpecId;
use native_erc20::address::Address;
use native_erc20::env::{
    for_op, saturating_to_u64, spec_by_timestamp_after_bedrock, ActiveForks, BlobExcessGasAndPrice,
    EvmEnvInput, OpSpec, PayloadFields,
};
use native_erc20::tx::{DepositTx, OpTransaction, TxEnv, TxKind, DEPOSIT_TX_TYPE};
use native_erc20::uint256::Uint256;

fn none_active() -> ActiveForks {
    ActiveForks {
        regolith: false,
        canyon: false,
        ecotone: false,
        fjord: false,
        granite: false,
        holocene: false,
        isthmus: false,
        jovian: false,
        karst: false,
        interop: false,
    }
}

fn input() -> EvmEnvInput {
    EvmEnvInput {
        timestamp: 1_700_000_000,
        number: 42,
        beneficiary: Address { hi: 0, lo: 0xbeef },
        mix_hash: Some(Uint256 { hi: 7, lo: 9 }),
        difficulty: Uint256::from_u128(12345),
        gas_limit: 30_000_000,
        excess_blob_gas: Some(99),
        base_fee_per_gas: 1_000,
    }
}

#[test]
fn spec_is_the_newest_active_fork() {
    assert_eq!(spec_by_timestamp_after_bedrock(&none_active()), OpSpec::Bedrock);
    let mut f = none_active();
    f.regolith = true;
    f.canyon = true;
    assert_eq!(spec_by_timestamp_after_bedrock(&f), OpSpec::Canyon);
    f.ecotone = true;
    f.fjord = true;
    f.granite = true;
    f.holocene = true;
    f.isthmus = true;
    assert_eq!(spec_by_timestamp_after_bedrock(&f), OpSpec::Isthmus);
    f.jovian = true;
    assert_eq!(spec_by_timestamp_after_bedrock(&f), OpSpec::Jovian);
}

#[test]
fn eth_spec_numbers_match_revm() {
    let pairs = [
        (OpSpec::Bedrock, OpSpecId::BEDROCK),
        (OpSpec::Regolith, OpSpecId::REGOLITH),
        (OpSpec::Canyon, OpSpecId::CANYON),
        (OpSpec::Ecotone, OpSpecId::ECOTONE),
        (OpSpec::Fjord, OpSpecId::FJORD),
        (OpSpec::Granite, OpSpecId::GRANITE),
        (OpSpec::Holocene, OpSpecId::HOLOCENE),
        (OpSpec::Isthmus, OpSpecId::ISTHMUS),
        (OpSpec::Jovian, OpSpecId::JOVIAN),
        (OpSpec::Karst, OpSpecId::KARST),
        (OpSpec::Interop, OpSpecId::INTEROP),
    ];
    for (ours, theirs) in pairs {
        assert_eq!(ours.into_eth_spec(), theirs.into_eth_spec() as u8);
    }
}

#[test]
fn bedrock_env_has_no_blob_fields() {
    let env = for_op(&input(), OpSpec::Bedrock, 10);
    assert_eq!(env.chain_id, 10);
    assert_eq!(env.block.number, Uint256::from_u128(42));
    assert_eq!(env.block.timestamp, Uint256::from_u128(1_700_000_000));
    assert_eq!(env.block.difficulty, Uint256::zero());
    assert_eq!(env.block.prevrandao, Some(Uint256 { hi: 7, lo: 9 }));
    assert_eq!(env.block.blob_excess_gas_and_price, None);
    assert_eq!(env.block.basefee, 1_000);
    assert_eq!(env.block.gas_limit, 30_000_000);
}

#[test]
fn ecotone_env_has_blob_fields() {
    let env = for_op(&input(), OpSpec::Ecotone, 10);
    assert_eq!(
        env.block.blob_excess_gas_and_price,
        Some(BlobExcessGasAndPrice { excess_blob_gas: 0, blob_gasprice: 1 })
    );
}

#[test]
fn payload_input_saturates_base_fee() {
    let p = PayloadFields {
        timestamp: 5,
        block_number: 6,
        fee_recipient: Address { hi: 1, lo: 2 },
        prev_randao: Uint256 { hi: 3, lo: 4 },
        gas_limit: 7,
        excess_blob_gas: None,
        base_fee_per_gas: Uint256 { hi: 1, lo: 0 },
    };
    let i = EvmEnvInput::from_op_payload(&p);
    assert_eq!(i.base_fee_per_gas, u64::MAX);
    assert_eq!(i.mix_hash, Some(p.prev_randao));
    assert_eq!(i.difficulty, p.prev_randao);
    assert_eq!(saturating_to_u64(&Uint256::from_u128(77)), 77);
}

#[test]
fn deposit_type_matches_op_alloy() {
    let d = op_alloy_consensus::TxDeposit::default();
    assert_eq!(d.ty(), DEPOSIT_TX_TYPE);
}

#[test]
fn deposit_tx_env_uses_the_recovered_caller() {
    let tx = DepositTx {
        source_hash: Uint256 { hi: 1, lo: 1 },
        from: Address { hi: 0, lo: 1 },
        to: TxKind::Call(Address { hi: 0, lo: 2 }),
        mint: 500,
        value: Uint256::from_u128(3),
        gas_limit: 21_000,
        is_system_transaction: true,
        input: vec![1, 2, 3],
    };
    let caller = Address { hi: 0, lo: 9 };
    let env = TxEnv::from_deposit(&tx, caller);
    assert_eq!(env.tx_type, 0x7e);
    assert_eq!(env.caller, caller);
    assert_eq!(env.kind, tx.to);
    assert_eq!(env.data, vec![1, 2, 3]);
    let t = OpTransaction::from_encoded_deposit(&tx, caller, vec![0x7e, 0xaa]);
    assert_eq!(t.enveloped_tx, Some(vec![0x7e, 0xaa]));
    assert_eq!(t.deposit.mint, Some(500));
    assert!(t.deposit.is_system_transaction);
    let r = OpTransaction::from_request(env);
    assert_eq!(r.enveloped_tx, Some(vec![]));
    assert_eq!(r.deposit.mint, None);
}
