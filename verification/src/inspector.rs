//! The token as the inspector runs it: calls to the native token contract are answered here,
//! with balances kept in the journaled state and allowances and the minter in the contract's
//! storage.

use vstd::prelude::*;

use crate::abi::{decode_call, spec_decode_call, Erc20Call, Interface};
use crate::address::{spec_admin_address, spec_address_from_word, spec_address_word, spec_native_token_address, spec_zero_address, Address};
use crate::host::{
    returned, reverted, CallResult, EventKind, HostReply, HostRequest, Outcome, Output,
    RevertReason, Step, TokenLog,
};
use crate::slots::{allowance_slot, minter_slot, spec_allowance_slot, spec_minter_slot};
use crate::uint256::{spec_checked_add, spec_checked_sub, u256_max, uint256_of, Uint256};

verus! {

/// The inspector that answers calls to the native token contract.
#[derive(Clone, Copy, Debug, Default)]
pub struct NativeErc20Inspector;

/// Whether a call goes to the native token contract, and so is the inspector's to answer.
pub fn is_native_token_call(target: &Address) -> (b: bool)
    ensures
        b == (*target == spec_native_token_address()),
{
    *target == Address::native_token()
}

/// The request that reads `allowance[owner][spender]` from the token contract's storage.
pub fn get_allowance(owner: &Address, spender: &Address) -> (r: HostRequest)
    ensures
        r == (HostRequest::StorageLoad { slot: spec_allowance_slot(*owner, *spender) }),
{
    HostRequest::StorageLoad { slot: allowance_slot(owner, spender) }
}

/// The request that writes `allowance[owner][spender] = amount` to the token contract's
/// storage.
pub fn set_allowance(owner: &Address, spender: &Address, amount: Uint256) -> (r: HostRequest)
    ensures
        r == (HostRequest::StorageStore {
            slot: spec_allowance_slot(*owner, *spender),
            value: amount,
        }),
{
    HostRequest::StorageStore { slot: allowance_slot(owner, spender), value: amount }
}

impl NativeErc20Inspector {
    /// Intercepts a call: a call to the native token contract starts running here, any other
    /// call is left to the EVM (`None`).
    pub fn call(&self, target: &Address, caller: Address, input: &[u8], is_static: bool) -> (r:
        Option<(Erc20Execution, Step)>)
        ensures
            *target != spec_native_token_address() ==> r is None,
            *target == spec_native_token_address() ==> (r matches Some(p) && p.0.caller == caller
                && (p.0.stage, p.1) == spec_exec_start(caller, input@, is_static)),
    {
        if is_native_token_call(target) {
            Some(Erc20Execution::start(caller, input, is_static))
        } else {
            None
        }
    }
}

/// Where a call that the inspector runs stands.
#[derive(Clone, Copy, Debug, PartialEq, Eq, Structural)]
pub enum ExecStage {
    /// Nothing more to do.
    Finished,
    /// Waiting for the balance that `balanceOf` returns.
    BalanceOf,
    /// Waiting for the allowance that `allowance` returns.
    Allowance,
    /// Waiting for the sender's balance, to check that it covers the amount.
    CheckBalance { sender: Address, to: Address, amount: Uint256 },
    /// Waiting for the recipient's account to load.
    LoadRecipient { sender: Address, to: Address, amount: Uint256 },
    /// Waiting for the sender's journaled balance, to debit it.
    Debit { sender: Address, to: Address, amount: Uint256 },
    /// Waiting for the debit to be written.
    Debited { sender: Address, to: Address, amount: Uint256 },
    /// Waiting for the recipient's journaled balance, to credit it.
    Credit { sender: Address, to: Address, amount: Uint256 },
    /// Waiting for the credit to be written.
    Credited { sender: Address, to: Address, amount: Uint256 },
    /// Waiting for the `Transfer` log; the call then returns `true`.
    TransferLogged,
    /// Waiting for the new allowance to be stored.
    ApproveStored { owner: Address, spender: Address, amount: Uint256 },
    /// Waiting for the `Approval` log; the call then returns `true`.
    ApproveLogged,
    /// Waiting for the allowance of `spender` over `sender`'s balance.
    CheckAllowance { sender: Address, spender: Address, recipient: Address, amount: Uint256 },
    /// Waiting for the reduced allowance to be stored.
    AllowanceReduced { sender: Address, recipient: Address, amount: Uint256 },
    /// Waiting for the minter's address.
    CheckMinter { to: Address, amount: Uint256 },
    /// Waiting for the account that receives minted tokens to load.
    MintLoadRecipient { to: Address, amount: Uint256 },
    /// Waiting for the journaled balance that receives minted tokens.
    MintCredit { to: Address, amount: Uint256 },
    /// Waiting for the minted credit to be written.
    MintCredited { to: Address, amount: Uint256 },
    /// Waiting for the mint's `Transfer` log; the call then returns nothing.
    MintLogged,
    /// Waiting for the new minter to be stored; the call then returns nothing.
    SetMinterStored,
}

/// Finish with a result.
pub open spec fn spec_finish(r: CallResult) -> (ExecStage, Step) {
    (ExecStage::Finished, Step::Finish(Some(r)))
}

/// Finish without handling the call.
pub open spec fn spec_unhandled() -> (ExecStage, Step) {
    (ExecStage::Finished, Step::Finish(None))
}

/// Ask the host, and wait in `stage`.
pub open spec fn spec_ask(stage: ExecStage, req: HostRequest) -> (ExecStage, Step) {
    (stage, Step::Request(req))
}

/// How a call that the inspector runs begins: it decodes the call data (without `burn`);
/// constant queries finish at once, state-changing calls in a static context revert with no
/// data, `setMinter` by anyone but the administrator reverts, and the rest ask the host for
/// their first value.
pub open spec fn spec_exec_start(caller: Address, input: Seq<u8>, is_static: bool) -> (
    ExecStage,
    Step,
) {
    match spec_decode_call(input, Interface::Plain) {
        None => spec_unhandled(),
        Some(call) => match call {
            Erc20Call::Name => spec_finish(returned(Output::Name)),
            Erc20Call::Symbol => spec_finish(returned(Output::Symbol)),
            Erc20Call::Decimals => spec_finish(returned(Output::Uint(uint256_of(18)))),
            Erc20Call::TotalSupply => spec_finish(returned(Output::Uint(uint256_of(u256_max())))),
            Erc20Call::BalanceOf { account } => spec_ask(
                ExecStage::BalanceOf,
                HostRequest::LoadBalance { account },
            ),
            Erc20Call::Transfer { recipient, amount } => if is_static {
                spec_finish(reverted(Output::Empty))
            } else {
                spec_ask(
                    ExecStage::CheckBalance { sender: caller, to: recipient, amount },
                    HostRequest::LoadBalance { account: caller },
                )
            },
            Erc20Call::Allowance { owner, spender } => spec_ask(
                ExecStage::Allowance,
                HostRequest::StorageLoad { slot: spec_allowance_slot(owner, spender) },
            ),
            Erc20Call::Approve { spender, amount } => if is_static {
                spec_finish(reverted(Output::Empty))
            } else {
                spec_ask(
                    ExecStage::ApproveStored { owner: caller, spender, amount },
                    HostRequest::StorageStore {
                        slot: spec_allowance_slot(caller, spender),
                        value: amount,
                    },
                )
            },
            Erc20Call::TransferFrom { sender, recipient, amount } => if is_static {
                spec_finish(reverted(Output::Empty))
            } else {
                spec_ask(
                    ExecStage::CheckAllowance { sender, spender: caller, recipient, amount },
                    HostRequest::StorageLoad { slot: spec_allowance_slot(sender, caller) },
                )
            },
            Erc20Call::Mint { to, amount } => if is_static {
                spec_finish(reverted(Output::Empty))
            } else {
                spec_ask(
                    ExecStage::CheckMinter { to, amount },
                    HostRequest::StorageLoad { slot: spec_minter_slot() },
                )
            },
            Erc20Call::Burn { .. } => spec_unhandled(),
            Erc20Call::SetMinter { minter } => if is_static {
                spec_finish(reverted(Output::Empty))
            } else if caller != spec_admin_address() {
                spec_finish(reverted(Output::Message(RevertReason::OnlyAdminSetMinter)))
            } else {
                spec_ask(
                    ExecStage::SetMinterStored,
                    HostRequest::StorageStore {
                        slot: spec_minter_slot(),
                        value: spec_address_word(minter),
                    },
                )
            },
        },
    }
}

/// How a call that the inspector runs goes on after the host's reply. A missing value, a
/// failed write or an overflow of a balance leaves the call unhandled; a reply of the wrong
/// kind does too.
pub open spec fn spec_exec_resume(caller: Address, stage: ExecStage, reply: HostReply) -> (
    ExecStage,
    Step,
) {
    match stage {
        ExecStage::BalanceOf => match reply {
            HostReply::Value(Some(b)) => spec_finish(returned(Output::Uint(b))),
            _ => spec_unhandled(),
        },
        ExecStage::Allowance => match reply {
            HostReply::Value(Some(a)) => spec_finish(returned(Output::Uint(a))),
            _ => spec_unhandled(),
        },
        ExecStage::CheckBalance { sender, to, amount } => match reply {
            HostReply::Value(Some(b)) => if b@ < amount@ {
                spec_finish(reverted(Output::Message(RevertReason::InsufficientBalance)))
            } else {
                spec_ask(
                    ExecStage::LoadRecipient { sender, to, amount },
                    HostRequest::LoadBalance { account: to },
                )
            },
            _ => spec_unhandled(),
        },
        ExecStage::LoadRecipient { sender, to, amount } => match reply {
            HostReply::Value(Some(_)) => spec_ask(
                ExecStage::Debit { sender, to, amount },
                HostRequest::EntryBalance { account: sender },
            ),
            _ => spec_unhandled(),
        },
        ExecStage::Debit { sender, to, amount } => match reply {
            HostReply::Value(Some(b)) => match spec_checked_sub(b, amount) {
                Some(nb) => spec_ask(
                    ExecStage::Debited { sender, to, amount },
                    HostRequest::SetEntryBalance { account: sender, balance: nb },
                ),
                None => spec_unhandled(),
            },
            _ => spec_unhandled(),
        },
        ExecStage::Debited { sender, to, amount } => match reply {
            HostReply::Done(true) => spec_ask(
                ExecStage::Credit { sender, to, amount },
                HostRequest::EntryBalance { account: to },
            ),
            _ => spec_unhandled(),
        },
        ExecStage::Credit { sender, to, amount } => match reply {
            HostReply::Value(Some(b)) => match spec_checked_add(b, amount) {
                Some(nb) => spec_ask(
                    ExecStage::Credited { sender, to, amount },
                    HostRequest::SetEntryBalance { account: to, balance: nb },
                ),
                None => spec_unhandled(),
            },
            _ => spec_unhandled(),
        },
        ExecStage::Credited { sender, to, amount } => match reply {
            HostReply::Done(true) => spec_ask(
                ExecStage::TransferLogged,
                HostRequest::EmitLog {
                    log: TokenLog { kind: EventKind::Transfer, first: sender, second: to, amount },
                },
            ),
            _ => spec_unhandled(),
        },
        ExecStage::TransferLogged => match reply {
            HostReply::Ack => spec_finish(returned(Output::Bool(true))),
            _ => spec_unhandled(),
        },
        ExecStage::ApproveStored { owner, spender, amount } => match reply {
            HostReply::Done(true) => spec_ask(
                ExecStage::ApproveLogged,
                HostRequest::EmitLog {
                    log: TokenLog { kind: EventKind::Approval, first: owner, second: spender, amount },
                },
            ),
            _ => spec_unhandled(),
        },
        ExecStage::ApproveLogged => match reply {
            HostReply::Ack => spec_finish(returned(Output::Bool(true))),
            _ => spec_unhandled(),
        },
        ExecStage::CheckAllowance { sender, spender, recipient, amount } => match reply {
            HostReply::Value(Some(a)) => if a@ < amount@ {
                spec_finish(reverted(Output::Message(RevertReason::InsufficientAllowance)))
            } else if a@ == u256_max() {
                spec_ask(
                    ExecStage::CheckBalance { sender, to: recipient, amount },
                    HostRequest::LoadBalance { account: sender },
                )
            } else {
                spec_ask(
                    ExecStage::AllowanceReduced { sender, recipient, amount },
                    HostRequest::StorageStore {
                        slot: spec_allowance_slot(sender, spender),
                        value: uint256_of((a@ - amount@) as nat),
                    },
                )
            },
            _ => spec_unhandled(),
        },
        ExecStage::AllowanceReduced { sender, recipient, amount } => match reply {
            HostReply::Done(true) => spec_ask(
                ExecStage::CheckBalance { sender, to: recipient, amount },
                HostRequest::LoadBalance { account: sender },
            ),
            _ => spec_unhandled(),
        },
        ExecStage::CheckMinter { to, amount } => match reply {
            HostReply::Value(Some(w)) => if caller != spec_address_from_word(w) && caller
                != spec_admin_address() {
                spec_finish(reverted(Output::Message(RevertReason::OnlyMinterOrAdmin)))
            } else {
                spec_ask(
                    ExecStage::MintLoadRecipient { to, amount },
                    HostRequest::LoadBalance { account: to },
                )
            },
            _ => spec_unhandled(),
        },
        ExecStage::MintLoadRecipient { to, amount } => match reply {
            HostReply::Value(Some(_)) => spec_ask(
                ExecStage::MintCredit { to, amount },
                HostRequest::EntryBalance { account: to },
            ),
            _ => spec_unhandled(),
        },
        ExecStage::MintCredit { to, amount } => match reply {
            HostReply::Value(Some(b)) => match spec_checked_add(b, amount) {
                Some(nb) => spec_ask(
                    ExecStage::MintCredited { to, amount },
                    HostRequest::SetEntryBalance { account: to, balance: nb },
                ),
                None => spec_unhandled(),
            },
            _ => spec_unhandled(),
        },
        ExecStage::MintCredited { to, amount } => match reply {
            HostReply::Done(true) => spec_ask(
                ExecStage::MintLogged,
                HostRequest::EmitLog {
                    log: TokenLog {
                        kind: EventKind::Transfer,
                        first: spec_zero_address(),
                        second: to,
                        amount,
                    },
                },
            ),
            _ => spec_unhandled(),
        },
        ExecStage::MintLogged => match reply {
            HostReply::Ack => spec_finish(returned(Output::Empty)),
            _ => spec_unhandled(),
        },
        ExecStage::SetMinterStored => spec_finish(returned(Output::Empty)),
        ExecStage::Finished => spec_unhandled(),
    }
}

/// A call to the native token contract that the inspector is running.
#[derive(Clone, Copy, Debug, PartialEq, Eq, Structural)]
pub struct Erc20Execution {
    pub caller: Address,
    pub stage: ExecStage,
}

fn finish(r: CallResult) -> (p: (ExecStage, Step))
    ensures
        p == spec_finish(r),
{
    (ExecStage::Finished, Step::Finish(Some(r)))
}

fn unhandled() -> (p: (ExecStage, Step))
    ensures
        p == spec_unhandled(),
{
    (ExecStage::Finished, Step::Finish(None))
}

fn ask(stage: ExecStage, req: HostRequest) -> (p: (ExecStage, Step))
    ensures
        p == spec_ask(stage, req),
{
    (stage, Step::Request(req))
}

fn ret(output: Output) -> (r: CallResult)
    ensures
        r == returned(output),
{
    CallResult { outcome: Outcome::Return, output }
}

fn rev(output: Output) -> (r: CallResult)
    ensures
        r == reverted(output),
{
    CallResult { outcome: Outcome::Revert, output }
}

impl Erc20Execution {
    /// Starts running a call from `caller` with call data `input`.
    pub fn start(caller: Address, input: &[u8], is_static: bool) -> (r: (Erc20Execution, Step))
        ensures
            r.0.caller == caller,
            (r.0.stage, r.1) == spec_exec_start(caller, input@, is_static),
    {
        let p = match decode_call(input, Interface::Plain) {
            None => unhandled(),
            Some(call) => match call {
                Erc20Call::Name => finish(ret(Output::Name)),
                Erc20Call::Symbol => finish(ret(Output::Symbol)),
                Erc20Call::Decimals => {
                    let d = Uint256::from_u128(18);
                    proof {
                        crate::uint256::lemma_uint256_of_view(d);
                    }
                    finish(ret(Output::Uint(d)))
                },
                Erc20Call::TotalSupply => {
                    let m = Uint256::max_value();
                    proof {
                        crate::uint256::lemma_uint256_of_view(m);
                    }
                    finish(ret(Output::Uint(m)))
                },
                Erc20Call::BalanceOf { account } => ask(
                    ExecStage::BalanceOf,
                    HostRequest::LoadBalance { account },
                ),
                Erc20Call::Transfer { recipient, amount } => if is_static {
                    finish(rev(Output::Empty))
                } else {
                    ask(
                        ExecStage::CheckBalance { sender: caller, to: recipient, amount },
                        HostRequest::LoadBalance { account: caller },
                    )
                },
                Erc20Call::Allowance { owner, spender } => ask(
                    ExecStage::Allowance,
                    get_allowance(&owner, &spender),
                ),
                Erc20Call::Approve { spender, amount } => if is_static {
                    finish(rev(Output::Empty))
                } else {
                    ask(
                        ExecStage::ApproveStored { owner: caller, spender, amount },
                        set_allowance(&caller, &spender, amount),
                    )
                },
                Erc20Call::TransferFrom { sender, recipient, amount } => if is_static {
                    finish(rev(Output::Empty))
                } else {
                    ask(
                        ExecStage::CheckAllowance { sender, spender: caller, recipient, amount },
                        get_allowance(&sender, &caller),
                    )
                },
                Erc20Call::Mint { to, amount } => if is_static {
                    finish(rev(Output::Empty))
                } else {
                    ask(
                        ExecStage::CheckMinter { to, amount },
                        HostRequest::StorageLoad { slot: minter_slot() },
                    )
                },
                Erc20Call::Burn { .. } => unhandled(),
                Erc20Call::SetMinter { minter } => if is_static {
                    finish(rev(Output::Empty))
                } else if caller != Address::admin() {
                    finish(rev(Output::Message(RevertReason::OnlyAdminSetMinter)))
                } else {
                    ask(
                        ExecStage::SetMinterStored,
                        HostRequest::StorageStore { slot: minter_slot(), value: minter.to_word() },
                    )
                },
            },
        };
        (Erc20Execution { caller, stage: p.0 }, p.1)
    }

    /// Goes on with the host's reply to the last request.
    pub fn resume(&mut self, reply: HostReply) -> (step: Step)
        ensures
            final(self).caller == old(self).caller,
            (final(self).stage, step) == spec_exec_resume(old(self).caller, old(self).stage, reply),
    {
        let caller = self.caller;
        let p = match self.stage {
            ExecStage::BalanceOf => match reply {
                HostReply::Value(Some(b)) => finish(ret(Output::Uint(b))),
                _ => unhandled(),
            },
            ExecStage::Allowance => match reply {
                HostReply::Value(Some(a)) => finish(ret(Output::Uint(a))),
                _ => unhandled(),
            },
            ExecStage::CheckBalance { sender, to, amount } => match reply {
                HostReply::Value(Some(b)) => if b.lt(&amount) {
                    finish(rev(Output::Message(RevertReason::InsufficientBalance)))
                } else {
                    ask(
                        ExecStage::LoadRecipient { sender, to, amount },
                        HostRequest::LoadBalance { account: to },
                    )
                },
                _ => unhandled(),
            },
            ExecStage::LoadRecipient { sender, to, amount } => match reply {
                HostReply::Value(Some(_)) => ask(
                    ExecStage::Debit { sender, to, amount },
                    HostRequest::EntryBalance { account: sender },
                ),
                _ => unhandled(),
            },
            ExecStage::Debit { sender, to, amount } => match reply {
                HostReply::Value(Some(b)) => match b.checked_sub(&amount) {
                    Some(nb) => ask(
                        ExecStage::Debited { sender, to, amount },
                        HostRequest::SetEntryBalance { account: sender, balance: nb },
                    ),
                    None => unhandled(),
                },
                _ => unhandled(),
            },
            ExecStage::Debited { sender, to, amount } => match reply {
                HostReply::Done(true) => ask(
                    ExecStage::Credit { sender, to, amount },
                    HostRequest::EntryBalance { account: to },
                ),
                _ => unhandled(),
            },
            ExecStage::Credit { sender, to, amount } => match reply {
                HostReply::Value(Some(b)) => match b.checked_add(&amount) {
                    Some(nb) => ask(
                        ExecStage::Credited { sender, to, amount },
                        HostRequest::SetEntryBalance { account: to, balance: nb },
                    ),
                    None => unhandled(),
                },
                _ => unhandled(),
            },
            ExecStage::Credited { sender, to, amount } => match reply {
                HostReply::Done(true) => ask(
                    ExecStage::TransferLogged,
                    HostRequest::EmitLog {
                        log: TokenLog { kind: EventKind::Transfer, first: sender, second: to, amount },
                    },
                ),
                _ => unhandled(),
            },
            ExecStage::TransferLogged => match reply {
                HostReply::Ack => finish(ret(Output::Bool(true))),
                _ => unhandled(),
            },
            ExecStage::ApproveStored { owner, spender, amount } => match reply {
                HostReply::Done(true) => ask(
                    ExecStage::ApproveLogged,
                    HostRequest::EmitLog {
                        log: TokenLog {
                            kind: EventKind::Approval,
                            first: owner,
                            second: spender,
                            amount,
                        },
                    },
                ),
                _ => unhandled(),
            },
            ExecStage::ApproveLogged => match reply {
                HostReply::Ack => finish(ret(Output::Bool(true))),
                _ => unhandled(),
            },
            ExecStage::CheckAllowance { sender, spender, recipient, amount } => match reply {
                HostReply::Value(Some(a)) => if a.lt(&amount) {
                    finish(rev(Output::Message(RevertReason::InsufficientAllowance)))
                } else if a.is_max() {
                    ask(
                        ExecStage::CheckBalance { sender, to: recipient, amount },
                        HostRequest::LoadBalance { account: sender },
                    )
                } else {
                    ask(
                        ExecStage::AllowanceReduced { sender, recipient, amount },
                        set_allowance(&sender, &spender, a.sub(&amount)),
                    )
                },
                _ => unhandled(),
            },
            ExecStage::AllowanceReduced { sender, recipient, amount } => match reply {
                HostReply::Done(true) => ask(
                    ExecStage::CheckBalance { sender, to: recipient, amount },
                    HostRequest::LoadBalance { account: sender },
                ),
                _ => unhandled(),
            },
            ExecStage::CheckMinter { to, amount } => match reply {
                HostReply::Value(Some(w)) => if caller != Address::from_word(&w) && caller
                    != Address::admin() {
                    finish(rev(Output::Message(RevertReason::OnlyMinterOrAdmin)))
                } else {
                    ask(
                        ExecStage::MintLoadRecipient { to, amount },
                        HostRequest::LoadBalance { account: to },
                    )
                },
                _ => unhandled(),
            },
            ExecStage::MintLoadRecipient { to, amount } => match reply {
                HostReply::Value(Some(_)) => ask(
                    ExecStage::MintCredit { to, amount },
                    HostRequest::EntryBalance { account: to },
                ),
                _ => unhandled(),
            },
            ExecStage::MintCredit { to, amount } => match reply {
                HostReply::Value(Some(b)) => match b.checked_add(&amount) {
                    Some(nb) => ask(
                        ExecStage::MintCredited { to, amount },
                        HostRequest::SetEntryBalance { account: to, balance: nb },
                    ),
                    None => unhandled(),
                },
                _ => unhandled(),
            },
            ExecStage::MintCredited { to, amount } => match reply {
                HostReply::Done(true) => ask(
                    ExecStage::MintLogged,
                    HostRequest::EmitLog {
                        log: TokenLog {
                            kind: EventKind::Transfer,
                            first: Address::zero(),
                            second: to,
                            amount,
                        },
                    },
                ),
                _ => unhandled(),
            },
            ExecStage::MintLogged => match reply {
                HostReply::Ack => finish(ret(Output::Empty)),
                _ => unhandled(),
            },
            ExecStage::SetMinterStored => finish(ret(Output::Empty)),
            ExecStage::Finished => unhandled(),
        };
        self.stage = p.0;
        p.1
    }
}

} // verus!
