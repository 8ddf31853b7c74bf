//! What the inspector's token calls do to a ledger, and the proof that running a call against
//! a host that serves it from the ledger does exactly that.

use vstd::prelude::*;

use crate::abi::{spec_decode_call, Erc20Call, Interface};
use crate::address::{spec_address_from_word, spec_address_word, spec_admin_address, spec_zero_address, Address};
use crate::host::{returned, reverted, CallResult, EventKind, Output, RevertReason, Step, TokenLog};
use crate::inspector::{spec_exec_resume, spec_exec_start, ExecStage};
use crate::ledger::{
    balance_of, ledger_apply, ledger_reply, storage_at, with_balance, with_log, with_storage, Ledger,
};
use crate::slots::{spec_allowance_slot, spec_minter_slot};
use crate::uint256::{u256_max, uint256_of, Uint256};

verus! {

/// Runs a started call against the ledger for at most `fuel` requests; `None` where the
/// fuel runs out first.
pub open spec fn run_inspector_on(
    caller: Address,
    stage: ExecStage,
    step: Step,
    l: Ledger,
    fuel: nat,
) -> Option<(Option<CallResult>, Ledger)>
    decreases fuel,
{
    match step {
        Step::Finish(r) => Some((r, l)),
        Step::Request(req) => if fuel == 0 {
            None
        } else {
            let (stage2, step2) = spec_exec_resume(caller, stage, ledger_reply(l, req));
            run_inspector_on(caller, stage2, step2, ledger_apply(l, req), (fuel - 1) as nat)
        },
    }
}

/// Runs a call from its call data against the ledger.
pub open spec fn run_inspector(caller: Address, input: Seq<u8>, is_static: bool, l: Ledger) -> Option<
    (Option<CallResult>, Ledger),
> {
    let (stage, step) = spec_exec_start(caller, input, is_static);
    run_inspector_on(caller, stage, step, l, 12)
}

/// The log of a transfer.
pub open spec fn transfer_log(from: Address, to: Address, amount: Uint256) -> TokenLog {
    TokenLog { kind: EventKind::Transfer, first: from, second: to, amount }
}

/// Moves `amount` from `from` to `to` as the inspector does, by debiting and then crediting
/// the journaled balances: where the credit would overflow, the debit stays and the call is
/// left unhandled.
pub open spec fn inspector_move(l: Ledger, from: Address, to: Address, amount: Uint256) -> (
    Option<CallResult>,
    Ledger,
) {
    let debited = with_balance(l, from, uint256_of((balance_of(l, from)@ - amount@) as nat));
    let b = balance_of(debited, to);
    if b@ + amount@ > u256_max() {
        (None, debited)
    } else {
        (
            Some(returned(Output::Bool(true))),
            with_log(with_balance(debited, to, uint256_of(b@ + amount@)), transfer_log(from, to, amount)),
        )
    }
}

/// A transfer of `amount` from `from` to `to`: refused where `from` holds less.
pub open spec fn inspector_transfer(l: Ledger, from: Address, to: Address, amount: Uint256) -> (
    Option<CallResult>,
    Ledger,
) {
    if balance_of(l, from)@ < amount@ {
        (Some(reverted(Output::Message(RevertReason::InsufficientBalance))), l)
    } else {
        inspector_move(l, from, to, amount)
    }
}

/// What a decoded call from `caller` does to the ledger, as the token's rules say: the
/// result (or `None` where the call is left unhandled) and the ledger afterwards.
pub open spec fn inspector_semantics(caller: Address, call: Erc20Call, is_static: bool, l: Ledger) -> (
    Option<CallResult>,
    Ledger,
) {
    match call {
        Erc20Call::Name => (Some(returned(Output::Name)), l),
        Erc20Call::Symbol => (Some(returned(Output::Symbol)), l),
        Erc20Call::Decimals => (Some(returned(Output::Uint(uint256_of(18)))), l),
        Erc20Call::TotalSupply => (Some(returned(Output::Uint(uint256_of(u256_max())))), l),
        Erc20Call::BalanceOf { account } => (
            Some(returned(Output::Uint(balance_of(l, account)))),
            l,
        ),
        Erc20Call::Allowance { owner, spender } => (
            Some(returned(Output::Uint(storage_at(l, spec_allowance_slot(owner, spender))))),
            l,
        ),
        Erc20Call::Burn { .. } => (None, l),
        _ => if is_static {
            (Some(reverted(Output::Empty)), l)
        } else {
            match call {
                Erc20Call::Transfer { recipient, amount } => inspector_transfer(
                    l,
                    caller,
                    recipient,
                    amount,
                ),
                Erc20Call::Approve { spender, amount } => (
                    Some(returned(Output::Bool(true))),
                    with_log(
                        with_storage(l, spec_allowance_slot(caller, spender), amount),
                        TokenLog { kind: EventKind::Approval, first: caller, second: spender, amount },
                    ),
                ),
                Erc20Call::TransferFrom { sender, recipient, amount } => {
                    let slot = spec_allowance_slot(sender, caller);
                    let a = storage_at(l, slot);
                    if a@ < amount@ {
                        (Some(reverted(Output::Message(RevertReason::InsufficientAllowance))), l)
                    } else {
                        let l1 = if a@ == u256_max() {
                            l
                        } else {
                            with_storage(l, slot, uint256_of((a@ - amount@) as nat))
                        };
                        inspector_transfer(l1, sender, recipient, amount)
                    }
                },
                Erc20Call::Mint { to, amount } => {
                    let minter = spec_address_from_word(storage_at(l, spec_minter_slot()));
                    if caller != minter && caller != spec_admin_address() {
                        (Some(reverted(Output::Message(RevertReason::OnlyMinterOrAdmin))), l)
                    } else if balance_of(l, to)@ + amount@ > u256_max() {
                        (None, l)
                    } else {
                        (
                            Some(returned(Output::Empty)),
                            with_log(
                                with_balance(l, to, uint256_of(balance_of(l, to)@ + amount@)),
                                transfer_log(spec_zero_address(), to, amount),
                            ),
                        )
                    }
                },
                Erc20Call::SetMinter { minter } => if caller != spec_admin_address() {
                    (Some(reverted(Output::Message(RevertReason::OnlyAdminSetMinter))), l)
                } else {
                    (
                        Some(returned(Output::Empty)),
                        with_storage(l, spec_minter_slot(), spec_address_word(minter)),
                    )
                },
                _ => (None, l),
            }
        },
    }
}

/// What running a call from its call data against the ledger should give.
pub open spec fn inspector_expected(caller: Address, input: Seq<u8>, is_static: bool, l: Ledger) -> (
    Option<CallResult>,
    Ledger,
) {
    match spec_decode_call(input, Interface::Plain) {
        None => (None, l),
        Some(call) => inspector_semantics(caller, call, is_static, l),
    }
}

/// From the balance check on, a transfer runs as `inspector_transfer` says.
proof fn lemma_run_transfer(
    caller: Address,
    l: Ledger,
    from: Address,
    to: Address,
    amount: Uint256,
    fuel: nat,
)
    requires
        fuel >= 8,
    ensures
        run_inspector_on(
            caller,
            ExecStage::CheckBalance { sender: from, to, amount },
            Step::Request(crate::host::HostRequest::LoadBalance { account: from }),
            l,
            fuel,
        ) == Some(inspector_transfer(l, from, to, amount)),
{
    reveal_with_fuel(run_inspector_on, 9);
}

/// Running a call of the inspector against a ledger host gives what the token's rules say
/// of that call and that ledger: the same result, and the same ledger afterwards.
pub proof fn law_inspector_runs_token_semantics(
    caller: Address,
    input: Seq<u8>,
    is_static: bool,
    l: Ledger,
)
    ensures
        run_inspector(caller, input, is_static, l) == Some(
            inspector_expected(caller, input, is_static, l),
        ),
{
    reveal_with_fuel(run_inspector_on, 4);
    match spec_decode_call(input, Interface::Plain) {
        None => {},
        Some(call) => match call {
            Erc20Call::Transfer { recipient, amount } => {
                if !is_static {
                    lemma_run_transfer(caller, l, caller, recipient, amount, 12);
                }
            },
            Erc20Call::TransferFrom { sender, recipient, amount } => {
                if !is_static {
                    let slot = spec_allowance_slot(sender, caller);
                    let a = storage_at(l, slot);
                    if a@ >= amount@ {
                        if a@ == u256_max() {
                            lemma_run_transfer(caller, l, sender, recipient, amount, 11);
                        } else {
                            let l1 = with_storage(l, slot, uint256_of((a@ - amount@) as nat));
                            lemma_run_transfer(caller, l1, sender, recipient, amount, 10);
                        }
                    }
                }
            },
            Erc20Call::Mint { to, amount } => {
                reveal_with_fuel(run_inspector_on, 7);
            },
            _ => {},
        },
    }
}

} // verus!
