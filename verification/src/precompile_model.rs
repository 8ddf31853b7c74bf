//! What the precompile entry point's token calls do to a ledger, and the proof that running
//! a call against a host that serves it from the ledger does exactly that.

use vstd::prelude::*;

use crate::abi::{spec_decode_call, Erc20Call, Interface};
use crate::address::{spec_address_from_word, spec_address_word, spec_admin_address, spec_zero_address, Address};
use crate::host::{
    returned, reverted, CallResult, EventKind, Output, RevertReason, Step, TokenLog, TransferStatus,
};
use crate::inspector_model::transfer_log;
use crate::ledger::{
    balance_of, journal_transfer, ledger_apply, ledger_reply, storage_at, with_log, with_storage,
    Ledger,
};
use crate::precompile::{spec_precompile_resume, spec_precompile_start, PrecompileStage};
use crate::slots::{spec_allowance_slot, spec_minter_slot};
use crate::uint256::{u256_max, uint256_of, Uint256};

verus! {

/// Runs a started call against the ledger for at most `fuel` requests.
pub open spec fn run_precompile_on(
    caller: Address,
    stage: PrecompileStage,
    step: Step,
    l: Ledger,
    fuel: nat,
) -> Option<(Option<CallResult>, Ledger)>
    decreases fuel,
{
    match step {
        Step::Finish(r) => Some((r, l)),
        Step::Request(req) => if fuel == 0 {
            None
        } else {
            let (stage2, step2) = spec_precompile_resume(caller, stage, ledger_reply(l, req));
            run_precompile_on(caller, stage2, step2, ledger_apply(l, req), (fuel - 1) as nat)
        },
    }
}

/// Runs a call from its call data against the ledger.
pub open spec fn run_precompile(caller: Address, input: Seq<u8>, is_static: bool, l: Ledger) -> Option<
    (Option<CallResult>, Ledger),
> {
    let (stage, step) = spec_precompile_start(caller, input, is_static);
    run_precompile_on(caller, stage, step, l, 12)
}

/// A transfer through the journal: `true` and a `Transfer` log where the balance moved, a
/// revert otherwise (with whatever the journal did).
pub open spec fn precompile_transfer(l: Ledger, from: Address, to: Address, amount: Uint256) -> (
    Option<CallResult>,
    Ledger,
) {
    let (status, l1) = journal_transfer(l, from, to, amount);
    match status {
        TransferStatus::Moved => (
            Some(returned(Output::Bool(true))),
            with_log(l1, transfer_log(from, to, amount)),
        ),
        _ => (Some(reverted(Output::Message(RevertReason::NativeTransferFailed))), l1),
    }
}

/// What a decoded call from `caller` does to the ledger, as the token's rules say.
pub open spec fn precompile_semantics(caller: Address, call: Erc20Call, is_static: bool, l: Ledger) -> (
    Option<CallResult>,
    Ledger,
) {
    match call {
        Erc20Call::Name => (Some(returned(Output::Name)), l),
        Erc20Call::Symbol => (Some(returned(Output::Symbol)), l),
        Erc20Call::Decimals => (Some(returned(Output::Uint(uint256_of(18)))), l),
        Erc20Call::TotalSupply => (Some(returned(Output::Uint(uint256_of(u256_max())))), l),
        Erc20Call::BalanceOf { account } => (
            Some(returned(Output::Uint(balance_of(l, account)))),
            l,
        ),
        Erc20Call::Allowance { owner, spender } => (
            Some(returned(Output::Uint(storage_at(l, spec_allowance_slot(owner, spender))))),
            l,
        ),
        Erc20Call::Burn { .. } => (None, l),
        _ => if is_static {
            (Some(reverted(Output::Empty)), l)
        } else {
            match call {
                Erc20Call::Transfer { recipient, amount } => precompile_transfer(
                    l,
                    caller,
                    recipient,
                    amount,
                ),
                Erc20Call::Approve { spender, amount } => (
                    Some(returned(Output::Bool(true))),
                    with_log(
                        with_storage(l, spec_allowance_slot(caller, spender), amount),
                        TokenLog { kind: EventKind::Approval, first: caller, second: spender, amount },
                    ),
                ),
                Erc20Call::TransferFrom { sender, recipient, amount } => {
                    let slot = spec_allowance_slot(sender, caller);
                    let a = storage_at(l, slot);
                    if a@ < amount@ {
                        (Some(reverted(Output::Message(RevertReason::InsufficientAllowance))), l)
                    } else {
                        let l1 = if a@ == u256_max() {
                            l
                        } else {
                            with_storage(l, slot, uint256_of((a@ - amount@) as nat))
                        };
                        precompile_transfer(l1, sender, recipient, amount)
                    }
                },
                Erc20Call::Mint { to, amount } => {
                    let minter = spec_address_from_word(storage_at(l, spec_minter_slot()));
                    if caller != minter && caller != spec_admin_address() {
                        (Some(reverted(Output::Message(RevertReason::OnlyMinterOrAdmin))), l)
                    } else {
                        let l1 = journal_transfer(l, spec_zero_address(), to, amount).1;
                        (
                            Some(returned(Output::Empty)),
                            with_log(l1, transfer_log(spec_zero_address(), to, amount)),
                        )
                    }
                },
                Erc20Call::SetMinter { minter } => if caller != spec_admin_address() {
                    (Some(reverted(Output::Message(RevertReason::OnlyAdminSetMinter))), l)
                } else {
                    (
                        Some(returned(Output::Empty)),
                        with_storage(l, spec_minter_slot(), spec_address_word(minter)),
                    )
                },
                _ => (None, l),
            }
        },
    }
}

/// What running a call from its call data against the ledger should give.
pub open spec fn precompile_expected(caller: Address, input: Seq<u8>, is_static: bool, l: Ledger) -> (
    Option<CallResult>,
    Ledger,
) {
    match spec_decode_call(input, Interface::Plain) {
        None => (None, l),
        Some(call) => precompile_semantics(caller, call, is_static, l),
    }
}

/// Running a call of the precompile entry point against a ledger host gives what the
/// token's rules say of that call and that ledger.
pub proof fn law_precompile_runs_token_semantics(
    caller: Address,
    input: Seq<u8>,
    is_static: bool,
    l: Ledger,
)
    ensures
        run_precompile(caller, input, is_static, l) == Some(
            precompile_expected(caller, input, is_static, l),
        ),
{
    reveal_with_fuel(run_precompile_on, 5);
}

} // verus!
