//! The token as the generic precompile entry point runs it: balances move through the
//! journal's transfer, allowances and the minter live in the contract's storage.

use vstd::prelude::*;

use crate::abi::{decode_call, spec_decode_call, Erc20Call, Interface};
use crate::address::{
    spec_address_from_word, spec_address_word, spec_admin_address, spec_zero_address, Address,
};
use crate::host::{
    returned, reverted, CallResult, EventKind, HostReply, HostRequest, Outcome, Output,
    RevertReason, Step, TokenLog, TransferStatus,
};
use crate::slots::{allowance_slot, minter_slot, spec_allowance_slot, spec_minter_slot};
use crate::uint256::{u256_max, uint256_of, Uint256};

verus! {

/// Where a call that the precompile runs stands.
#[derive(Clone, Copy, Debug, PartialEq, Eq, Structural)]
pub enum PrecompileStage {
    Finished,
    BalanceOf,
    Allowance,
    /// Waiting for the journal to move `amount` from `sender` to `recipient`.
    Transfer { sender: Address, recipient: Address, amount: Uint256 },
    TransferLogged,
    ApproveStored { owner: Address, spender: Address, amount: Uint256 },
    ApproveLogged,
    CheckAllowance { sender: Address, spender: Address, recipient: Address, amount: Uint256 },
    AllowanceReduced { sender: Address, recipient: Address, amount: Uint256 },
    CheckMinter { to: Address, amount: Uint256 },
    /// Waiting for the journal to move `amount` from the zero address to `to`.
    Mint { to: Address, amount: Uint256 },
    MintLogged,
    SetMinterStored,
}

pub open spec fn spec_pc_finish(r: CallResult) -> (PrecompileStage, Step) {
    (PrecompileStage::Finished, Step::Finish(Some(r)))
}

pub open spec fn spec_pc_unhandled() -> (PrecompileStage, Step) {
    (PrecompileStage::Finished, Step::Finish(None))
}

pub open spec fn spec_pc_ask(stage: PrecompileStage, req: HostRequest) -> (PrecompileStage, Step) {
    (stage, Step::Request(req))
}

/// The log of a transfer.
pub open spec fn spec_transfer_log(from: Address, to: Address, amount: Uint256) -> TokenLog {
    TokenLog { kind: EventKind::Transfer, first: from, second: to, amount }
}

/// How a call that the precompile runs begins.
pub open spec fn spec_precompile_start(caller: Address, input: Seq<u8>, is_static: bool) -> (
    PrecompileStage,
    Step,
) {
    match spec_decode_call(input, Interface::Plain) {
        None => spec_pc_unhandled(),
        Some(call) => match call {
            Erc20Call::Name => spec_pc_finish(returned(Output::Name)),
            Erc20Call::Symbol => spec_pc_finish(returned(Output::Symbol)),
            Erc20Call::Decimals => spec_pc_finish(returned(Output::Uint(uint256_of(18)))),
            Erc20Call::TotalSupply => spec_pc_finish(
                returned(Output::Uint(uint256_of(u256_max()))),
            ),
            Erc20Call::BalanceOf { account } => spec_pc_ask(
                PrecompileStage::BalanceOf,
                HostRequest::LoadBalance { account },
            ),
            Erc20Call::Transfer { recipient, amount } => if is_static {
                spec_pc_finish(reverted(Output::Empty))
            } else {
                spec_pc_ask(
                    PrecompileStage::Transfer { sender: caller, recipient, amount },
                    HostRequest::JournalTransfer { from: caller, to: recipient, amount },
                )
            },
            Erc20Call::Allowance { owner, spender } => spec_pc_ask(
                PrecompileStage::Allowance,
                HostRequest::StorageLoad { slot: spec_allowance_slot(owner, spender) },
            ),
            Erc20Call::Approve { spender, amount } => if is_static {
                spec_pc_finish(reverted(Output::Empty))
            } else {
                spec_pc_ask(
                    PrecompileStage::ApproveStored { owner: caller, spender, amount },
                    HostRequest::StorageStore {
                        slot: spec_allowance_slot(caller, spender),
                        value: amount,
                    },
                )
            },
            Erc20Call::TransferFrom { sender, recipient, amount } => if is_static {
                spec_pc_finish(reverted(Output::Empty))
            } else {
                spec_pc_ask(
                    PrecompileStage::CheckAllowance { sender, spender: caller, recipient, amount },
                    HostRequest::StorageLoad { slot: spec_allowance_slot(sender, caller) },
                )
            },
            Erc20Call::Mint { to, amount } => if is_static {
                spec_pc_finish(reverted(Output::Empty))
            } else {
                spec_pc_ask(
                    PrecompileStage::CheckMinter { to, amount },
                    HostRequest::StorageLoad { slot: spec_minter_slot() },
                )
            },
            Erc20Call::Burn { .. } => spec_pc_unhandled(),
            Erc20Call::SetMinter { minter } => if is_static {
                spec_pc_finish(reverted(Output::Empty))
            } else if caller != spec_admin_address() {
                spec_pc_finish(reverted(Output::Message(RevertReason::OnlyAdminSetMinter)))
            } else {
                spec_pc_ask(
                    PrecompileStage::SetMinterStored,
                    HostRequest::StorageStore {
                        slot: spec_minter_slot(),
                        value: spec_address_word(minter),
                    },
                )
            },
        },
    }
}

/// How a call that the precompile runs goes on after the host's reply.
pub open spec fn spec_precompile_resume(
    caller: Address,
    stage: PrecompileStage,
    reply: HostReply,
) -> (PrecompileStage, Step) {
    match stage {
        PrecompileStage::BalanceOf => match reply {
            HostReply::Value(Some(b)) => spec_pc_finish(returned(Output::Uint(b))),
            _ => spec_pc_unhandled(),
        },
        PrecompileStage::Allowance => match reply {
            HostReply::Value(Some(a)) => spec_pc_finish(returned(Output::Uint(a))),
            _ => spec_pc_unhandled(),
        },
        PrecompileStage::Transfer { sender, recipient, amount } => match reply {
            HostReply::Transfer(TransferStatus::Moved) => spec_pc_ask(
                PrecompileStage::TransferLogged,
                HostRequest::EmitLog { log: spec_transfer_log(sender, recipient, amount) },
            ),
            HostReply::Transfer(TransferStatus::Refused) => spec_pc_finish(
                reverted(Output::Message(RevertReason::NativeTransferFailed)),
            ),
            HostReply::Transfer(TransferStatus::DatabaseError) => spec_pc_finish(
                reverted(Output::Message(RevertReason::DatabaseError)),
            ),
            _ => spec_pc_unhandled(),
        },
        PrecompileStage::TransferLogged => match reply {
            HostReply::Ack => spec_pc_finish(returned(Output::Bool(true))),
            _ => spec_pc_unhandled(),
        },
        PrecompileStage::ApproveStored { owner, spender, amount } => match reply {
            HostReply::Done(true) => spec_pc_ask(
                PrecompileStage::ApproveLogged,
                HostRequest::EmitLog {
                    log: TokenLog { kind: EventKind::Approval, first: owner, second: spender, amount },
                },
            ),
            HostReply::Done(false) => spec_pc_finish(
                reverted(Output::Message(RevertReason::FailedToStoreAllowance)),
            ),
            _ => spec_pc_unhandled(),
        },
        PrecompileStage::ApproveLogged => match reply {
            HostReply::Ack => spec_pc_finish(returned(Output::Bool(true))),
            _ => spec_pc_unhandled(),
        },
        PrecompileStage::CheckAllowance { sender, spender, recipient, amount } => match reply {
            HostReply::Value(Some(a)) => if a@ < amount@ {
                spec_pc_finish(reverted(Output::Message(RevertReason::InsufficientAllowance)))
            } else if a@ == u256_max() {
                spec_pc_ask(
                    PrecompileStage::Transfer { sender, recipient, amount },
                    HostRequest::JournalTransfer { from: sender, to: recipient, amount },
                )
            } else {
                spec_pc_ask(
                    PrecompileStage::AllowanceReduced { sender, recipient, amount },
                    HostRequest::StorageStore {
                        slot: spec_allowance_slot(sender, spender),
                        value: uint256_of((a@ - amount@) as nat),
                    },
                )
            },
            _ => spec_pc_unhandled(),
        },
        PrecompileStage::AllowanceReduced { sender, recipient, amount } => spec_pc_ask(
            PrecompileStage::Transfer { sender, recipient, amount },
            HostRequest::JournalTransfer { from: sender, to: recipient, amount },
        ),
        PrecompileStage::CheckMinter { to, amount } => match reply {
            HostReply::Value(Some(w)) => if caller != spec_address_from_word(w) && caller
                != spec_admin_address() {
                spec_pc_finish(reverted(Output::Message(RevertReason::OnlyMinterOrAdmin)))
            } else {
                spec_pc_ask(
                    PrecompileStage::Mint { to, amount },
                    HostRequest::JournalTransfer { from: spec_zero_address(), to, amount },
                )
            },
            _ => spec_pc_unhandled(),
        },
        PrecompileStage::Mint { to, amount } => match reply {
            HostReply::Transfer(TransferStatus::DatabaseError) => spec_pc_finish(
                reverted(Output::Message(RevertReason::FailedToMint)),
            ),
            HostReply::Transfer(_) => spec_pc_ask(
                PrecompileStage::MintLogged,
                HostRequest::EmitLog { log: spec_transfer_log(spec_zero_address(), to, amount) },
            ),
            _ => spec_pc_unhandled(),
        },
        PrecompileStage::MintLogged => match reply {
            HostReply::Ack => spec_pc_finish(returned(Output::Empty)),
            _ => spec_pc_unhandled(),
        },
        PrecompileStage::SetMinterStored => spec_pc_finish(returned(Output::Empty)),
        PrecompileStage::Finished => spec_pc_unhandled(),
    }
}

fn finish(r: CallResult) -> (p: (PrecompileStage, Step))
    ensures
        p == spec_pc_finish(r),
{
    (PrecompileStage::Finished, Step::Finish(Some(r)))
}

fn unhandled() -> (p: (PrecompileStage, Step))
    ensures
        p == spec_pc_unhandled(),
{
    (PrecompileStage::Finished, Step::Finish(None))
}

fn ask(stage: PrecompileStage, req: HostRequest) -> (p: (PrecompileStage, Step))
    ensures
        p == spec_pc_ask(stage, req),
{
    (stage, Step::Request(req))
}

fn ret(output: Output) -> (r: CallResult)
    ensures
        r == returned(output),
{
    CallResult { outcome: Outcome::Return, output }
}

fn rev(output: Output) -> (r: CallResult)
    ensures
        r == reverted(output),
{
    CallResult { outcome: Outcome::Revert, output }
}

fn transfer_log(from: Address, to: Address, amount: Uint256) -> (l: TokenLog)
    ensures
        l == spec_transfer_log(from, to, amount),
{
    TokenLog { kind: EventKind::Transfer, first: from, second: to, amount }
}

/// A call to the native token contract that the precompile is running.
#[derive(Clone, Copy, Debug, PartialEq, Eq, Structural)]
pub struct PrecompileRun {
    pub caller: Address,
    pub stage: PrecompileStage,
}

impl PrecompileRun {
    /// Starts running a call from `caller` with call data `input`.
    pub fn start(caller: Address, input: &[u8], is_static: bool) -> (r: (PrecompileRun, Step))
        ensures
            r.0.caller == caller,
            (r.0.stage, r.1) == spec_precompile_start(caller, input@, is_static),
    {
        let p = match decode_call(input, Interface::Plain) {
            None => unhandled(),
            Some(call) => match call {
                Erc20Call::Name => finish(ret(Output::Name)),
                Erc20Call::Symbol => finish(ret(Output::Symbol)),
                Erc20Call::Decimals => {
                    let d = Uint256::from_u128(18);
                    proof {
                        crate::uint256::lemma_uint256_of_view(d);
                    }
                    finish(ret(Output::Uint(d)))
                },
                Erc20Call::TotalSupply => {
                    let m = Uint256::max_value();
                    proof {
                        crate::uint256::lemma_uint256_of_view(m);
                    }
                    finish(ret(Output::Uint(m)))
                },
                Erc20Call::BalanceOf { account } => ask(
                    PrecompileStage::BalanceOf,
                    HostRequest::LoadBalance { account },
                ),
                Erc20Call::Transfer { recipient, amount } => if is_static {
                    finish(rev(Output::Empty))
                } else {
                    ask(
                        PrecompileStage::Transfer { sender: caller, recipient, amount },
                        HostRequest::JournalTransfer { from: caller, to: recipient, amount },
                    )
                },
                Erc20Call::Allowance { owner, spender } => ask(
                    PrecompileStage::Allowance,
                    HostRequest::StorageLoad { slot: allowance_slot(&owner, &spender) },
                ),
                Erc20Call::Approve { spender, amount } => if is_static {
                    finish(rev(Output::Empty))
                } else {
                    ask(
                        PrecompileStage::ApproveStored { owner: caller, spender, amount },
                        HostRequest::StorageStore {
                            slot: allowance_slot(&caller, &spender),
                            value: amount,
                        },
                    )
                },
                Erc20Call::TransferFrom { sender, recipient, amount } => if is_static {
                    finish(rev(Output::Empty))
                } else {
                    ask(
                        PrecompileStage::CheckAllowance {
                            sender,
                            spender: caller,
                            recipient,
                            amount,
                        },
                        HostRequest::StorageLoad { slot: allowance_slot(&sender, &caller) },
                    )
                },
                Erc20Call::Mint { to, amount } => if is_static {
                    finish(rev(Output::Empty))
                } else {
                    ask(
                        PrecompileStage::CheckMinter { to, amount },
                        HostRequest::StorageLoad { slot: minter_slot() },
                    )
                },
                Erc20Call::Burn { .. } => unhandled(),
                Erc20Call::SetMinter { minter } => if is_static {
                    finish(rev(Output::Empty))
                } else if caller != Address::admin() {
                    finish(rev(Output::Message(RevertReason::OnlyAdminSetMinter)))
                } else {
                    ask(
                        PrecompileStage::SetMinterStored,
                        HostRequest::StorageStore { slot: minter_slot(), value: minter.to_word() },
                    )
                },
            },
        };
        (PrecompileRun { caller, stage: p.0 }, p.1)
    }

    /// Goes on with the host's reply to the last request.
    pub fn resume(&mut self, reply: HostReply) -> (step: Step)
        ensures
            final(self).caller == old(self).caller,
            (final(self).stage, step) == spec_precompile_resume(
                old(self).caller,
                old(self).stage,
                reply,
            ),
    {
        let caller = self.caller;
        let p = match self.stage {
            PrecompileStage::BalanceOf => match reply {
                HostReply::Value(Some(b)) => finish(ret(Output::Uint(b))),
                _ => unhandled(),
            },
            PrecompileStage::Allowance => match reply {
                HostReply::Value(Some(a)) => finish(ret(Output::Uint(a))),
                _ => unhandled(),
            },
            PrecompileStage::Transfer { sender, recipient, amount } => match reply {
                HostReply::Transfer(TransferStatus::Moved) => ask(
                    PrecompileStage::TransferLogged,
                    HostRequest::EmitLog { log: transfer_log(sender, recipient, amount) },
                ),
                HostReply::Transfer(TransferStatus::Refused) => finish(
                    rev(Output::Message(RevertReason::NativeTransferFailed)),
                ),
                HostReply::Transfer(TransferStatus::DatabaseError) => finish(
                    rev(Output::Message(RevertReason::DatabaseError)),
                ),
                _ => unhandled(),
            },
            PrecompileStage::TransferLogged => match reply {
                HostReply::Ack => finish(ret(Output::Bool(true))),
                _ => unhandled(),
            },
            PrecompileStage::ApproveStored { owner, spender, amount } => match reply {
                HostReply::Done(true) => ask(
                    PrecompileStage::ApproveLogged,
                    HostRequest::EmitLog {
                        log: TokenLog {
                            kind: EventKind::Approval,
                            first: owner,
                            second: spender,
                            amount,
                        },
                    },
                ),
                HostReply::Done(false) => finish(
                    rev(Output::Message(RevertReason::FailedToStoreAllowance)),
                ),
                _ => unhandled(),
            },
            PrecompileStage::ApproveLogged => match reply {
                HostReply::Ack => finish(ret(Output::Bool(true))),
                _ => unhandled(),
            },
            PrecompileStage::CheckAllowance { sender, spender, recipient, amount } => match reply {
                HostReply::Value(Some(a)) => if a.lt(&amount) {
                    finish(rev(Output::Message(RevertReason::InsufficientAllowance)))
                } else if a.is_max() {
                    ask(
                        PrecompileStage::Transfer { sender, recipient, amount },
                        HostRequest::JournalTransfer { from: sender, to: recipient, amount },
                    )
                } else {
                    ask(
                        PrecompileStage::AllowanceReduced { sender, recipient, amount },
                        HostRequest::StorageStore {
                            slot: allowance_slot(&sender, &spender),
                            value: a.sub(&amount),
                        },
                    )
                },
                _ => unhandled(),
            },
            PrecompileStage::AllowanceReduced { sender, recipient, amount } => ask(
                PrecompileStage::Transfer { sender, recipient, amount },
                HostRequest::JournalTransfer { from: sender, to: recipient, amount },
            ),
            PrecompileStage::CheckMinter { to, amount } => match reply {
                HostReply::Value(Some(w)) => if caller != Address::from_word(&w) && caller
                    != Address::admin() {
                    finish(rev(Output::Message(RevertReason::OnlyMinterOrAdmin)))
                } else {
                    ask(
                        PrecompileStage::Mint { to, amount },
                        HostRequest::JournalTransfer { from: Address::zero(), to, amount },
                    )
                },
                _ => unhandled(),
            },
            PrecompileStage::Mint { to, amount } => match reply {
                HostReply::Transfer(TransferStatus::DatabaseError) => finish(
                    rev(Output::Message(RevertReason::FailedToMint)),
                ),
                HostReply::Transfer(_) => ask(
                    PrecompileStage::MintLogged,
                    HostRequest::EmitLog { log: transfer_log(Address::zero(), to, amount) },
                ),
                _ => unhandled(),
            },
            PrecompileStage::MintLogged => match reply {
                HostReply::Ack => finish(ret(Output::Empty)),
                _ => unhandled(),
            },
            PrecompileStage::SetMinterStored => finish(ret(Output::Empty)),
            PrecompileStage::Finished => unhandled(),
        };
        self.stage = p.0;
        p.1
    }
}

} // verus!
