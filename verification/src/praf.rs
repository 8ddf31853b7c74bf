//! The native PRAF token precompile at `0x805`: balances move through the journal, mints and
//! burns change account balances directly and keep a total supply in the contract's storage,
//! and the interface has `burn`.

use vstd::prelude::*;

use crate::abi::{decode_call, spec_decode_call, Erc20Call, Interface};
use crate::address::{spec_address_word, spec_admin_address, spec_zero_address, Address};
use crate::host::{
    returned, reverted, CallResult, EventKind, HostReply, HostRequest, Outcome, Output,
    RevertReason, Step, TokenLog, TransferStatus,
};
use crate::precompile::spec_transfer_log;
use crate::slots::{
    allowance_slot, minter_slot, spec_allowance_slot, spec_minter_slot, spec_total_supply_slot,
    total_supply_slot,
};
use crate::uint256::{
    spec_saturating_add, spec_saturating_sub, u256_max, uint256_of, Uint256,
};

verus! {

/// Where a call that the PRAF precompile runs stands.
#[derive(Clone, Copy, Debug, PartialEq, Eq, Structural)]
pub enum PrafStage {
    Finished,
    TotalSupply,
    BalanceOf,
    Allowance,
    Transfer { sender: Address, recipient: Address, amount: Uint256 },
    TransferLogged,
    ApproveStored { owner: Address, spender: Address, amount: Uint256 },
    ApproveLogged,
    CheckAllowance { sender: Address, spender: Address, recipient: Address, amount: Uint256 },
    AllowanceReduced { sender: Address, recipient: Address, amount: Uint256 },
    /// Waiting for the minter's address, which is read but not enforced.
    MintReadMinter { to: Address, amount: Uint256 },
    MintLoad { to: Address, amount: Uint256 },
    MintCredited { to: Address, amount: Uint256 },
    MintSupply { to: Address, amount: Uint256 },
    MintSupplyStored { to: Address, amount: Uint256 },
    MintLogged,
    BurnCheckAllowance { from: Address, spender: Address, amount: Uint256 },
    BurnAllowanceReduced { from: Address, amount: Uint256 },
    BurnLoad { from: Address, amount: Uint256 },
    BurnDebited { from: Address, amount: Uint256 },
    BurnSupply { from: Address, amount: Uint256 },
    BurnSupplyStored { from: Address, amount: Uint256 },
    BurnLogged,
    SetMinterStored,
}

pub open spec fn spec_pr_finish(r: CallResult) -> (PrafStage, Step) {
    (PrafStage::Finished, Step::Finish(Some(r)))
}

pub open spec fn spec_pr_unhandled() -> (PrafStage, Step) {
    (PrafStage::Finished, Step::Finish(None))
}

pub open spec fn spec_pr_ask(stage: PrafStage, req: HostRequest) -> (PrafStage, Step) {
    (stage, Step::Request(req))
}

/// A storage value read with a default: a missing value counts as zero.
pub open spec fn spec_value_or_zero(reply: HostReply) -> Uint256 {
    match reply {
        HostReply::Value(Some(v)) => v,
        _ => uint256_of(0),
    }
}

/// How a call that the PRAF precompile runs begins: as the other entry points, but with
/// `burn`, and `totalSupply` read from storage.
pub open spec fn spec_praf_start(caller: Address, input: Seq<u8>, is_static: bool) -> (
    PrafStage,
    Step,
) {
    match spec_decode_call(input, Interface::WithBurn) {
        None => spec_pr_unhandled(),
        Some(call) => spec_praf_begin(caller, call, is_static),
    }
}

/// How a decoded call begins.
pub open spec fn spec_praf_begin(caller: Address, call: Erc20Call, is_static: bool) -> (
    PrafStage,
    Step,
) {
        match call {
            Erc20Call::Name => spec_pr_finish(returned(Output::Name)),
            Erc20Call::Symbol => spec_pr_finish(returned(Output::Symbol)),
            Erc20Call::Decimals => spec_pr_finish(returned(Output::Uint(uint256_of(18)))),
            Erc20Call::TotalSupply => spec_pr_ask(
                PrafStage::TotalSupply,
                HostRequest::StorageLoad { slot: spec_total_supply_slot() },
            ),
            Erc20Call::BalanceOf { account } => spec_pr_ask(
                PrafStage::BalanceOf,
                HostRequest::LoadBalance { account },
            ),
            Erc20Call::Transfer { recipient, amount } => if is_static {
                spec_pr_finish(reverted(Output::Empty))
            } else {
                spec_pr_ask(
                    PrafStage::Transfer { sender: caller, recipient, amount },
                    HostRequest::JournalTransfer { from: caller, to: recipient, amount },
                )
            },
            Erc20Call::Allowance { owner, spender } => spec_pr_ask(
                PrafStage::Allowance,
                HostRequest::StorageLoad { slot: spec_allowance_slot(owner, spender) },
            ),
            Erc20Call::Approve { spender, amount } => if is_static {
                spec_pr_finish(reverted(Output::Empty))
            } else {
                spec_pr_ask(
                    PrafStage::ApproveStored { owner: caller, spender, amount },
                    HostRequest::StorageStore {
                        slot: spec_allowance_slot(caller, spender),
                        value: amount,
                    },
                )
            },
            Erc20Call::TransferFrom { sender, recipient, amount } => if is_static {
                spec_pr_finish(reverted(Output::Empty))
            } else {
                spec_pr_ask(
                    PrafStage::CheckAllowance { sender, spender: caller, recipient, amount },
                    HostRequest::StorageLoad { slot: spec_allowance_slot(sender, caller) },
                )
            },
            Erc20Call::Mint { to, amount } => if is_static {
                spec_pr_finish(reverted(Output::Empty))
            } else {
                spec_pr_ask(
                    PrafStage::MintReadMinter { to, amount },
                    HostRequest::StorageLoad { slot: spec_minter_slot() },
                )
            },
            Erc20Call::Burn { from, amount } => if is_static {
                spec_pr_finish(reverted(Output::Empty))
            } else if from != caller {
                spec_pr_ask(
                    PrafStage::BurnCheckAllowance { from, spender: caller, amount },
                    HostRequest::StorageLoad { slot: spec_allowance_slot(from, caller) },
                )
            } else {
                spec_pr_ask(
                    PrafStage::BurnLoad { from, amount },
                    HostRequest::LoadAccountBalance { account: from },
                )
            },
            Erc20Call::SetMinter { minter } => if is_static {
                spec_pr_finish(reverted(Output::Empty))
            } else if caller != spec_admin_address() {
                spec_pr_finish(reverted(Output::Message(RevertReason::OnlyAdmin)))
            } else {
                spec_pr_ask(
                    PrafStage::SetMinterStored,
                    HostRequest::StorageStore {
                        slot: spec_minter_slot(),
                        value: spec_address_word(minter),
                    },
                )
            },
        }
}

/// How a call that the PRAF precompile runs goes on after the host's reply.
pub open spec fn spec_praf_resume(stage: PrafStage, reply: HostReply) -> (PrafStage, Step) {
    match stage {
        PrafStage::TotalSupply => match reply {
            HostReply::Value(_) => spec_pr_finish(returned(Output::Uint(spec_value_or_zero(reply)))),
            _ => spec_pr_unhandled(),
        },
        PrafStage::BalanceOf => match reply {
            HostReply::Value(Some(b)) => spec_pr_finish(returned(Output::Uint(b))),
            _ => spec_pr_unhandled(),
        },
        PrafStage::Allowance => match reply {
            HostReply::Value(Some(a)) => spec_pr_finish(returned(Output::Uint(a))),
            _ => spec_pr_unhandled(),
        },
        PrafStage::Transfer { sender, recipient, amount } => match reply {
            HostReply::Transfer(TransferStatus::Moved) => spec_pr_ask(
                PrafStage::TransferLogged,
                HostRequest::EmitLog { log: spec_transfer_log(sender, recipient, amount) },
            ),
            HostReply::Transfer(_) => spec_pr_finish(
                reverted(Output::Message(RevertReason::TransferFailed)),
            ),
            _ => spec_pr_unhandled(),
        },
        PrafStage::TransferLogged => match reply {
            HostReply::Ack => spec_pr_finish(returned(Output::Bool(true))),
            _ => spec_pr_unhandled(),
        },
        PrafStage::ApproveStored { owner, spender, amount } => match reply {
            HostReply::Done(true) => spec_pr_ask(
                PrafStage::ApproveLogged,
                HostRequest::EmitLog {
                    log: TokenLog { kind: EventKind::Approval, first: owner, second: spender, amount },
                },
            ),
            _ => spec_pr_unhandled(),
        },
        PrafStage::ApproveLogged => match reply {
            HostReply::Ack => spec_pr_finish(returned(Output::Bool(true))),
            _ => spec_pr_unhandled(),
        },
        PrafStage::CheckAllowance { sender, spender, recipient, amount } => match reply {
            HostReply::Value(Some(a)) => if a@ < amount@ {
                spec_pr_finish(reverted(Output::Message(RevertReason::InsufficientAllowance)))
            } else if a@ == u256_max() {
                spec_pr_ask(
                    PrafStage::Transfer { sender, recipient, amount },
                    HostRequest::JournalTransfer { from: sender, to: recipient, amount },
                )
            } else {
                spec_pr_ask(
                    PrafStage::AllowanceReduced { sender, recipient, amount },
                    HostRequest::StorageStore {
                        slot: spec_allowance_slot(sender, spender),
                        value: uint256_of((a@ - amount@) as nat),
                    },
                )
            },
            _ => spec_pr_unhandled(),
        },
        PrafStage::AllowanceReduced { sender, recipient, amount } => match reply {
            HostReply::Done(true) => spec_pr_ask(
                PrafStage::Transfer { sender, recipient, amount },
                HostRequest::JournalTransfer { from: sender, to: recipient, amount },
            ),
            _ => spec_pr_unhandled(),
        },
        PrafStage::MintReadMinter { to, amount } => match reply {
            HostReply::Value(Some(_)) => spec_pr_ask(
                PrafStage::MintLoad { to, amount },
                HostRequest::LoadAccountBalance { account: to },
            ),
            _ => spec_pr_unhandled(),
        },
        PrafStage::MintLoad { to, amount } => match reply {
            HostReply::Value(Some(b)) => spec_pr_ask(
                PrafStage::MintCredited { to, amount },
                HostRequest::SetAccountBalance { account: to, balance: spec_saturating_add(b, amount) },
            ),
            HostReply::Value(None) => spec_pr_finish(
                reverted(Output::Message(RevertReason::FailedToLoadMintRecipient)),
            ),
            _ => spec_pr_unhandled(),
        },
        PrafStage::MintCredited { to, amount } => spec_pr_ask(
            PrafStage::MintSupply { to, amount },
            HostRequest::StorageLoad { slot: spec_total_supply_slot() },
        ),
        PrafStage::MintSupply { to, amount } => spec_pr_ask(
            PrafStage::MintSupplyStored { to, amount },
            HostRequest::StorageStore {
                slot: spec_total_supply_slot(),
                value: spec_saturating_add(spec_value_or_zero(reply), amount),
            },
        ),
        PrafStage::MintSupplyStored { to, amount } => spec_pr_ask(
            PrafStage::MintLogged,
            HostRequest::EmitLog { log: spec_transfer_log(spec_zero_address(), to, amount) },
        ),
        PrafStage::MintLogged => match reply {
            HostReply::Ack => spec_pr_finish(returned(Output::Bool(true))),
            _ => spec_pr_unhandled(),
        },
        PrafStage::BurnCheckAllowance { from, spender, amount } => match reply {
            HostReply::Value(Some(a)) => if a@ < amount@ {
                spec_pr_finish(
                    reverted(Output::Message(RevertReason::InsufficientAllowanceForBurn)),
                )
            } else if a@ == u256_max() {
                spec_pr_ask(
                    PrafStage::BurnLoad { from, amount },
                    HostRequest::LoadAccountBalance { account: from },
                )
            } else {
                spec_pr_ask(
                    PrafStage::BurnAllowanceReduced { from, amount },
                    HostRequest::StorageStore {
                        slot: spec_allowance_slot(from, spender),
                        value: uint256_of((a@ - amount@) as nat),
                    },
                )
            },
            _ => spec_pr_unhandled(),
        },
        PrafStage::BurnAllowanceReduced { from, amount } => spec_pr_ask(
            PrafStage::BurnLoad { from, amount },
            HostRequest::LoadAccountBalance { account: from },
        ),
        PrafStage::BurnLoad { from, amount } => match reply {
            HostReply::Value(Some(b)) => if b@ < amount@ {
                spec_pr_finish(reverted(Output::Message(RevertReason::InsufficientBalanceForBurn)))
            } else {
                spec_pr_ask(
                    PrafStage::BurnDebited { from, amount },
                    HostRequest::SetAccountBalance {
                        account: from,
                        balance: spec_saturating_sub(b, amount),
                    },
                )
            },
            HostReply::Value(None) => spec_pr_finish(
                reverted(Output::Message(RevertReason::FailedToLoadBurnAccount)),
            ),
            _ => spec_pr_unhandled(),
        },
        PrafStage::BurnDebited { from, amount } => spec_pr_ask(
            PrafStage::BurnSupply { from, amount },
            HostRequest::StorageLoad { slot: spec_total_supply_slot() },
        ),
        PrafStage::BurnSupply { from, amount } => spec_pr_ask(
            PrafStage::BurnSupplyStored { from, amount },
            HostRequest::StorageStore {
                slot: spec_total_supply_slot(),
                value: spec_saturating_sub(spec_value_or_zero(reply), amount),
            },
        ),
        PrafStage::BurnSupplyStored { from, amount } => spec_pr_ask(
            PrafStage::BurnLogged,
            HostRequest::EmitLog { log: spec_transfer_log(from, spec_zero_address(), amount) },
        ),
        PrafStage::BurnLogged => match reply {
            HostReply::Ack => spec_pr_finish(returned(Output::Bool(true))),
            _ => spec_pr_unhandled(),
        },
        PrafStage::SetMinterStored => match reply {
            HostReply::Done(true) => spec_pr_finish(returned(Output::Empty)),
            _ => spec_pr_unhandled(),
        },
        PrafStage::Finished => spec_pr_unhandled(),
    }
}

fn finish(r: CallResult) -> (p: (PrafStage, Step))
    ensures
        p == spec_pr_finish(r),
{
    (PrafStage::Finished, Step::Finish(Some(r)))
}

fn unhandled() -> (p: (PrafStage, Step))
    ensures
        p == spec_pr_unhandled(),
{
    (PrafStage::Finished, Step::Finish(None))
}

fn ask(stage: PrafStage, req: HostRequest) -> (p: (PrafStage, Step))
    ensures
        p == spec_pr_ask(stage, req),
{
    (stage, Step::Request(req))
}

fn ret(output: Output) -> (r: CallResult)
    ensures
        r == returned(output),
{
    CallResult { outcome: Outcome::Return, output }
}

fn rev(output: Output) -> (r: CallResult)
    ensures
        r == reverted(output),
{
    CallResult { outcome: Outcome::Revert, output }
}

fn transfer_log(from: Address, to: Address, amount: Uint256) -> (l: TokenLog)
    ensures
        l == spec_transfer_log(from, to, amount),
{
    TokenLog { kind: EventKind::Transfer, first: from, second: to, amount }
}

fn value_or_zero(reply: HostReply) -> (v: Uint256)
    ensures
        v == spec_value_or_zero(reply),
{
    match reply {
        HostReply::Value(Some(v)) => v,
        _ => {
            let z = Uint256::zero();
            proof {
                crate::uint256::lemma_uint256_of_view(z);
            }
            z
        },
    }
}

/// A call to the PRAF precompile that is running.
#[derive(Clone, Copy, Debug, PartialEq, Eq, Structural)]
pub struct PrafRun {
    pub stage: PrafStage,
}

impl PrafRun {
    /// Starts running a call from `caller` with call data `input`.
    pub fn start(caller: Address, input: &[u8], is_static: bool) -> (r: (PrafRun, Step))
        ensures
            (r.0.stage, r.1) == spec_praf_start(caller, input@, is_static),
    {
        let p = match decode_call(input, Interface::WithBurn) {
            None => unhandled(),
            Some(call) => match call {
                Erc20Call::Name => finish(ret(Output::Name)),
                Erc20Call::Symbol => finish(ret(Output::Symbol)),
                Erc20Call::Decimals => {
                    let d = Uint256::from_u128(18);
                    proof {
                        crate::uint256::lemma_uint256_of_view(d);
                    }
                    finish(ret(Output::Uint(d)))
                },
                Erc20Call::TotalSupply => ask(
                    PrafStage::TotalSupply,
                    HostRequest::StorageLoad { slot: total_supply_slot() },
                ),
                Erc20Call::BalanceOf { account } => ask(
                    PrafStage::BalanceOf,
                    HostRequest::LoadBalance { account },
                ),
                Erc20Call::Transfer { recipient, amount } => if is_static {
                    finish(rev(Output::Empty))
                } else {
                    ask(
                        PrafStage::Transfer { sender: caller, recipient, amount },
                        HostRequest::JournalTransfer { from: caller, to: recipient, amount },
                    )
                },
                Erc20Call::Allowance { owner, spender } => ask(
                    PrafStage::Allowance,
                    HostRequest::StorageLoad { slot: allowance_slot(&owner, &spender) },
                ),
                Erc20Call::Approve { spender, amount } => if is_static {
                    finish(rev(Output::Empty))
                } else {
                    ask(
                        PrafStage::ApproveStored { owner: caller, spender, amount },
                        HostRequest::StorageStore {
                            slot: allowance_slot(&caller, &spender),
                            value: amount,
                        },
                    )
                },
                Erc20Call::TransferFrom { sender, recipient, amount } => if is_static {
                    finish(rev(Output::Empty))
                } else {
                    ask(
                        PrafStage::CheckAllowance { sender, spender: caller, recipient, amount },
                        HostRequest::StorageLoad { slot: allowance_slot(&sender, &caller) },
                    )
                },
                Erc20Call::Mint { to, amount } => if is_static {
                    finish(rev(Output::Empty))
                } else {
                    ask(
                        PrafStage::MintReadMinter { to, amount },
                        HostRequest::StorageLoad { slot: minter_slot() },
                    )
                },
                Erc20Call::Burn { from, amount } => if is_static {
                    finish(rev(Output::Empty))
                } else if from != caller {
                    ask(
                        PrafStage::BurnCheckAllowance { from, spender: caller, amount },
                        HostRequest::StorageLoad { slot: allowance_slot(&from, &caller) },
                    )
                } else {
                    ask(
                        PrafStage::BurnLoad { from, amount },
                        HostRequest::LoadAccountBalance { account: from },
                    )
                },
                Erc20Call::SetMinter { minter } => if is_static {
                    finish(rev(Output::Empty))
                } else if caller != Address::admin() {
                    finish(rev(Output::Message(RevertReason::OnlyAdmin)))
                } else {
                    ask(
                        PrafStage::SetMinterStored,
                        HostRequest::StorageStore { slot: minter_slot(), value: minter.to_word() },
                    )
                },
            },
        };
        (PrafRun { stage: p.0 }, p.1)
    }

    /// Goes on with the host's reply to the last request.
    pub fn resume(&mut self, reply: HostReply) -> (step: Step)
        ensures
            (final(self).stage, step) == spec_praf_resume(old(self).stage, reply),
    {
        let p = match self.stage {
            PrafStage::TotalSupply => match reply {
                HostReply::Value(_) => finish(ret(Output::Uint(value_or_zero(reply)))),
                _ => unhandled(),
            },
            PrafStage::BalanceOf => match reply {
                HostReply::Value(Some(b)) => finish(ret(Output::Uint(b))),
                _ => unhandled(),
            },
            PrafStage::Allowance => match reply {
                HostReply::Value(Some(a)) => finish(ret(Output::Uint(a))),
                _ => unhandled(),
            },
            PrafStage::Transfer { sender, recipient, amount } => match reply {
                HostReply::Transfer(TransferStatus::Moved) => ask(
                    PrafStage::TransferLogged,
                    HostRequest::EmitLog { log: transfer_log(sender, recipient, amount) },
                ),
                HostReply::Transfer(_) => finish(rev(Output::Message(RevertReason::TransferFailed))),
                _ => unhandled(),
            },
            PrafStage::TransferLogged => match reply {
                HostReply::Ack => finish(ret(Output::Bool(true))),
                _ => unhandled(),
            },
            PrafStage::ApproveStored { owner, spender, amount } => match reply {
                HostReply::Done(true) => ask(
                    PrafStage::ApproveLogged,
                    HostRequest::EmitLog {
                        log: TokenLog {
                            kind: EventKind::Approval,
                            first: owner,
                            second: spender,
                            amount,
                        },
                    },
                ),
                _ => unhandled(),
            },
            PrafStage::ApproveLogged => match reply {
                HostReply::Ack => finish(ret(Output::Bool(true))),
                _ => unhandled(),
            },
            PrafStage::CheckAllowance { sender, spender, recipient, amount } => match reply {
                HostReply::Value(Some(a)) => if a.lt(&amount) {
                    finish(rev(Output::Message(RevertReason::InsufficientAllowance)))
                } else if a.is_max() {
                    ask(
                        PrafStage::Transfer { sender, recipient, amount },
                        HostRequest::JournalTransfer { from: sender, to: recipient, amount },
                    )
                } else {
                    ask(
                        PrafStage::AllowanceReduced { sender, recipient, amount },
                        HostRequest::StorageStore {
                            slot: allowance_slot(&sender, &spender),
                            value: a.sub(&amount),
                        },
                    )
                },
                _ => unhandled(),
            },
            PrafStage::AllowanceReduced { sender, recipient, amount } => match reply {
                HostReply::Done(true) => ask(
                    PrafStage::Transfer { sender, recipient, amount },
                    HostRequest::JournalTransfer { from: sender, to: recipient, amount },
                ),
                _ => unhandled(),
            },
            PrafStage::MintReadMinter { to, amount } => match reply {
                HostReply::Value(Some(_)) => ask(
                    PrafStage::MintLoad { to, amount },
                    HostRequest::LoadAccountBalance { account: to },
                ),
                _ => unhandled(),
            },
            PrafStage::MintLoad { to, amount } => match reply {
                HostReply::Value(Some(b)) => ask(
                    PrafStage::MintCredited { to, amount },
                    HostRequest::SetAccountBalance { account: to, balance: b.saturating_add(&amount) },
                ),
                HostReply::Value(None) => finish(
                    rev(Output::Message(RevertReason::FailedToLoadMintRecipient)),
                ),
                _ => unhandled(),
            },
            PrafStage::MintCredited { to, amount } => ask(
                PrafStage::MintSupply { to, amount },
                HostRequest::StorageLoad { slot: total_supply_slot() },
            ),
            PrafStage::MintSupply { to, amount } => ask(
                PrafStage::MintSupplyStored { to, amount },
                HostRequest::StorageStore {
                    slot: total_supply_slot(),
                    value: value_or_zero(reply).saturating_add(&amount),
                },
            ),
            PrafStage::MintSupplyStored { to, amount } => ask(
                PrafStage::MintLogged,
                HostRequest::EmitLog { log: transfer_log(Address::zero(), to, amount) },
            ),
            PrafStage::MintLogged => match reply {
                HostReply::Ack => finish(ret(Output::Bool(true))),
                _ => unhandled(),
            },
            PrafStage::BurnCheckAllowance { from, spender, amount } => match reply {
                HostReply::Value(Some(a)) => if a.lt(&amount) {
                    finish(rev(Output::Message(RevertReason::InsufficientAllowanceForBurn)))
                } else if a.is_max() {
                    ask(
                        PrafStage::BurnLoad { from, amount },
                        HostRequest::LoadAccountBalance { account: from },
                    )
                } else {
                    ask(
                        PrafStage::BurnAllowanceReduced { from, amount },
                        HostRequest::StorageStore {
                            slot: allowance_slot(&from, &spender),
                            value: a.sub(&amount),
                        },
                    )
                },
                _ => unhandled(),
            },
            PrafStage::BurnAllowanceReduced { from, amount } => ask(
                PrafStage::BurnLoad { from, amount },
                HostRequest::LoadAccountBalance { account: from },
            ),
            PrafStage::BurnLoad { from, amount } => match reply {
                HostReply::Value(Some(b)) => if b.lt(&amount) {
                    finish(rev(Output::Message(RevertReason::InsufficientBalanceForBurn)))
                } else {
                    ask(
                        PrafStage::BurnDebited { from, amount },
                        HostRequest::SetAccountBalance {
                            account: from,
                            balance: b.saturating_sub(&amount),
                        },
                    )
                },
                HostReply::Value(None) => finish(
                    rev(Output::Message(RevertReason::FailedToLoadBurnAccount)),
                ),
                _ => unhandled(),
            },
            PrafStage::BurnDebited { from, amount } => ask(
                PrafStage::BurnSupply { from, amount },
                HostRequest::StorageLoad { slot: total_supply_slot() },
            ),
            PrafStage::BurnSupply { from, amount } => ask(
                PrafStage::BurnSupplyStored { from, amount },
                HostRequest::StorageStore {
                    slot: total_supply_slot(),
                    value: value_or_zero(reply).saturating_sub(&amount),
                },
            ),
            PrafStage::BurnSupplyStored { from, amount } => ask(
                PrafStage::BurnLogged,
                HostRequest::EmitLog { log: transfer_log(from, Address::zero(), amount) },
            ),
            PrafStage::BurnLogged => match reply {
                HostReply::Ack => finish(ret(Output::Bool(true))),
                _ => unhandled(),
            },
            PrafStage::SetMinterStored => match reply {
                HostReply::Done(true) => finish(ret(Output::Empty)),
                _ => unhandled(),
            },
            PrafStage::Finished => unhandled(),
        };
        self.stage = p.0;
        p.1
    }
}

} // verus!
