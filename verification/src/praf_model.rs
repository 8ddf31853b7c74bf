//! What the PRAF precompile's calls do to a ledger, and the proof that running a call
//! against a host that serves it from the ledger does exactly that.

use vstd::prelude::*;

use crate::abi::{spec_decode_call, Erc20Call, Interface};
use crate::address::{spec_address_word, spec_admin_address, spec_zero_address, Address};
use crate::host::{returned, reverted, CallResult, EventKind, Output, RevertReason, Step, TokenLog, TransferStatus};
use crate::inspector_model::transfer_log;
use crate::ledger::{
    balance_of, journal_transfer, ledger_apply, ledger_reply, storage_at, with_balance, with_log,
    with_storage, Ledger,
};
use crate::praf::{spec_praf_begin, spec_praf_resume, spec_praf_start, PrafStage};
use crate::slots::{spec_allowance_slot, spec_minter_slot, spec_total_supply_slot};
use crate::uint256::{spec_saturating_add, spec_saturating_sub, u256_max, uint256_of, Uint256};

verus! {

/// Runs a started call against the ledger for at most `fuel` requests.
pub open spec fn run_praf_on(stage: PrafStage, step: Step, l: Ledger, fuel: nat) -> Option<
    (Option<CallResult>, Ledger),
>
    decreases fuel,
{
    match step {
        Step::Finish(r) => Some((r, l)),
        Step::Request(req) => if fuel == 0 {
            None
        } else {
            let (stage2, step2) = spec_praf_resume(stage, ledger_reply(l, req));
            run_praf_on(stage2, step2, ledger_apply(l, req), (fuel - 1) as nat)
        },
    }
}

/// Runs a call from its call data against the ledger.
pub open spec fn run_praf(caller: Address, input: Seq<u8>, is_static: bool, l: Ledger) -> Option<
    (Option<CallResult>, Ledger),
> {
    let (stage, step) = spec_praf_start(caller, input, is_static);
    run_praf_on(stage, step, l, 12)
}

/// The total supply that the contract's storage records.
pub open spec fn total_supply(l: Ledger) -> Uint256 {
    storage_at(l, spec_total_supply_slot())
}

/// A transfer through the journal: `true` and a `Transfer` log where the balance moved,
/// `"Transfer failed"` otherwise.
pub open spec fn praf_transfer(l: Ledger, from: Address, to: Address, amount: Uint256) -> (
    Option<CallResult>,
    Ledger,
) {
    let (status, l1) = journal_transfer(l, from, to, amount);
    match status {
        TransferStatus::Moved => (
            Some(returned(Output::Bool(true))),
            with_log(l1, transfer_log(from, to, amount)),
        ),
        _ => (Some(reverted(Output::Message(RevertReason::TransferFailed))), l1),
    }
}

/// A mint: the recipient's balance and the total supply both grow by the amount, each capped
/// at `2^256 - 1`, and a `Transfer` from the zero address is logged.
pub open spec fn praf_mint(l: Ledger, to: Address, amount: Uint256) -> Ledger {
    let l1 = with_balance(l, to, spec_saturating_add(balance_of(l, to), amount));
    let l2 = with_storage(
        l1,
        spec_total_supply_slot(),
        spec_saturating_add(total_supply(l1), amount),
    );
    with_log(l2, transfer_log(spec_zero_address(), to, amount))
}

/// The burn of `amount` from `from`, once any allowance was spent: refused where `from`
/// holds less; otherwise the balance and the total supply both shrink by the amount (the
/// supply floored at zero), and a `Transfer` to the zero address is logged.
pub open spec fn praf_burn_balance(l: Ledger, from: Address, amount: Uint256) -> (
    Option<CallResult>,
    Ledger,
) {
    let b = balance_of(l, from);
    if b@ < amount@ {
        (Some(reverted(Output::Message(RevertReason::InsufficientBalanceForBurn))), l)
    } else {
        let l1 = with_balance(l, from, spec_saturating_sub(b, amount));
        let l2 = with_storage(
            l1,
            spec_total_supply_slot(),
            spec_saturating_sub(total_supply(l1), amount),
        );
        (
            Some(returned(Output::Bool(true))),
            with_log(l2, transfer_log(from, spec_zero_address(), amount)),
        )
    }
}

/// What a decoded call from `caller` does to the ledger, as the PRAF token's rules say.
pub open spec fn praf_semantics(caller: Address, call: Erc20Call, is_static: bool, l: Ledger) -> (
    Option<CallResult>,
    Ledger,
) {
    match call {
        Erc20Call::Name => (Some(returned(Output::Name)), l),
        Erc20Call::Symbol => (Some(returned(Output::Symbol)), l),
        Erc20Call::Decimals => (Some(returned(Output::Uint(uint256_of(18)))), l),
        Erc20Call::TotalSupply => (Some(returned(Output::Uint(total_supply(l)))), l),
        Erc20Call::BalanceOf { account } => (
            Some(returned(Output::Uint(balance_of(l, account)))),
            l,
        ),
        Erc20Call::Allowance { owner, spender } => (
            Some(returned(Output::Uint(storage_at(l, spec_allowance_slot(owner, spender))))),
            l,
        ),
        _ => if is_static {
            (Some(reverted(Output::Empty)), l)
        } else {
            match call {
                Erc20Call::Transfer { recipient, amount } => praf_transfer(
                    l,
                    caller,
                    recipient,
                    amount,
                ),
                Erc20Call::Approve { spender, amount } => (
                    Some(returned(Output::Bool(true))),
                    with_log(
                        with_storage(l, spec_allowance_slot(caller, spender), amount),
                        TokenLog { kind: EventKind::Approval, first: caller, second: spender, amount },
                    ),
                ),
                Erc20Call::TransferFrom { sender, recipient, amount } => {
                    let slot = spec_allowance_slot(sender, caller);
                    let a = storage_at(l, slot);
                    if a@ < amount@ {
                        (Some(reverted(Output::Message(RevertReason::InsufficientAllowance))), l)
                    } else {
                        let l1 = if a@ == u256_max() {
                            l
                        } else {
                            with_storage(l, slot, uint256_of((a@ - amount@) as nat))
                        };
                        praf_transfer(l1, sender, recipient, amount)
                    }
                },
                Erc20Call::Mint { to, amount } => (
                    Some(returned(Output::Bool(true))),
                    praf_mint(l, to, amount),
                ),
                Erc20Call::Burn { from, amount } => if from != caller {
                    let slot = spec_allowance_slot(from, caller);
                    let a = storage_at(l, slot);
                    if a@ < amount@ {
                        (
                            Some(
                                reverted(Output::Message(RevertReason::InsufficientAllowanceForBurn)),
                            ),
                            l,
                        )
                    } else {
                        let l1 = if a@ == u256_max() {
                            l
                        } else {
                            with_storage(l, slot, uint256_of((a@ - amount@) as nat))
                        };
                        praf_burn_balance(l1, from, amount)
                    }
                } else {
                    praf_burn_balance(l, from, amount)
                },
                Erc20Call::SetMinter { minter } => if caller != spec_admin_address() {
                    (Some(reverted(Output::Message(RevertReason::OnlyAdmin))), l)
                } else {
                    (
                        Some(returned(Output::Empty)),
                        with_storage(l, spec_minter_slot(), spec_address_word(minter)),
                    )
                },
                _ => (None, l),
            }
        },
    }
}

/// What running a call from its call data against the ledger should give.
pub open spec fn praf_expected(caller: Address, input: Seq<u8>, is_static: bool, l: Ledger) -> (
    Option<CallResult>,
    Ledger,
) {
    match spec_decode_call(input, Interface::WithBurn) {
        None => (None, l),
        Some(call) => praf_semantics(caller, call, is_static, l),
    }
}

/// From loading the account on, a burn runs as `praf_burn_balance` says.
proof fn lemma_run_burn(l: Ledger, from: Address, amount: Uint256, fuel: nat)
    requires
        fuel >= 5,
    ensures
        run_praf_on(
            PrafStage::BurnLoad { from, amount },
            Step::Request(crate::host::HostRequest::LoadAccountBalance { account: from }),
            l,
            fuel,
        ) == Some(praf_burn_balance(l, from, amount)),
{
    reveal_with_fuel(run_praf_on, 6);
}

/// From loading the recipient on, a mint runs as `praf_mint` says.
proof fn lemma_run_mint(l: Ledger, to: Address, amount: Uint256, fuel: nat)
    requires
        fuel >= 5,
    ensures
        run_praf_on(
            PrafStage::MintLoad { to, amount },
            Step::Request(crate::host::HostRequest::LoadAccountBalance { account: to }),
            l,
            fuel,
        ) == Some((Some(returned(Output::Bool(true))), praf_mint(l, to, amount))),
{
    reveal_with_fuel(run_praf_on, 6);
}

/// From the journal transfer on, a transfer runs as `praf_transfer` says.
proof fn lemma_run_praf_transfer(l: Ledger, from: Address, to: Address, amount: Uint256, fuel: nat)
    requires
        fuel >= 2,
    ensures
        run_praf_on(
            PrafStage::Transfer { sender: from, recipient: to, amount },
            Step::Request(crate::host::HostRequest::JournalTransfer { from, to, amount }),
            l,
            fuel,
        ) == Some(praf_transfer(l, from, to, amount)),
{
    reveal_with_fuel(run_praf_on, 3);
}

#[verifier::spinoff_prover]
proof fn lemma_praf_name(caller: Address, call: Erc20Call, is_static: bool, l: Ledger)
    requires
        call matches Erc20Call::Name,
    ensures
        ({
            let (stage, step) = spec_praf_begin(caller, call, is_static);
            run_praf_on(stage, step, l, 12)
        }) == Some(praf_semantics(caller, call, is_static, l)),
{
    reveal_with_fuel(run_praf_on, 1);
}

#[verifier::spinoff_prover]
proof fn lemma_praf_symbol(caller: Address, call: Erc20Call, is_static: bool, l: Ledger)
    requires
        call matches Erc20Call::Symbol,
    ensures
        ({
            let (stage, step) = spec_praf_begin(caller, call, is_static);
            run_praf_on(stage, step, l, 12)
        }) == Some(praf_semantics(caller, call, is_static, l)),
{
    reveal_with_fuel(run_praf_on, 1);
}

#[verifier::spinoff_prover]
proof fn lemma_praf_decimals(caller: Address, call: Erc20Call, is_static: bool, l: Ledger)
    requires
        call matches Erc20Call::Decimals,
    ensures
        ({
            let (stage, step) = spec_praf_begin(caller, call, is_static);
            run_praf_on(stage, step, l, 12)
        }) == Some(praf_semantics(caller, call, is_static, l)),
{
    reveal_with_fuel(run_praf_on, 1);
}

#[verifier::spinoff_prover]
proof fn lemma_praf_total_supply(caller: Address, call: Erc20Call, is_static: bool, l: Ledger)
    requires
        call matches Erc20Call::TotalSupply,
    ensures
        ({
            let (stage, step) = spec_praf_begin(caller, call, is_static);
            run_praf_on(stage, step, l, 12)
        }) == Some(praf_semantics(caller, call, is_static, l)),
{
    reveal_with_fuel(run_praf_on, 2);
}

#[verifier::spinoff_prover]
proof fn lemma_praf_balance_of(caller: Address, call: Erc20Call, is_static: bool, l: Ledger)
    requires
        call matches Erc20Call::BalanceOf { .. },
    ensures
        ({
            let (stage, step) = spec_praf_begin(caller, call, is_static);
            run_praf_on(stage, step, l, 12)
        }) == Some(praf_semantics(caller, call, is_static, l)),
{
    reveal_with_fuel(run_praf_on, 2);
}

#[verifier::spinoff_prover]
proof fn lemma_praf_allowance(caller: Address, call: Erc20Call, is_static: bool, l: Ledger)
    requires
        call matches Erc20Call::Allowance { .. },
    ensures
        ({
            let (stage, step) = spec_praf_begin(caller, call, is_static);
            run_praf_on(stage, step, l, 12)
        }) == Some(praf_semantics(caller, call, is_static, l)),
{
    reveal_with_fuel(run_praf_on, 2);
}

#[verifier::spinoff_prover]
proof fn lemma_praf_approve(caller: Address, call: Erc20Call, is_static: bool, l: Ledger)
    requires
        call matches Erc20Call::Approve { .. },
    ensures
        ({
            let (stage, step) = spec_praf_begin(caller, call, is_static);
            run_praf_on(stage, step, l, 12)
        }) == Some(praf_semantics(caller, call, is_static, l)),
{
    reveal_with_fuel(run_praf_on, 3);
}

#[verifier::spinoff_prover]
proof fn lemma_praf_set_minter(caller: Address, call: Erc20Call, is_static: bool, l: Ledger)
    requires
        call matches Erc20Call::SetMinter { .. },
    ensures
        ({
            let (stage, step) = spec_praf_begin(caller, call, is_static);
            run_praf_on(stage, step, l, 12)
        }) == Some(praf_semantics(caller, call, is_static, l)),
{
    reveal_with_fuel(run_praf_on, 2);
}

#[verifier::spinoff_prover]
proof fn lemma_praf_transfer(caller: Address, call: Erc20Call, is_static: bool, l: Ledger)
    requires
        call matches Erc20Call::Transfer { .. },
    ensures
        ({
            let (stage, step) = spec_praf_begin(caller, call, is_static);
            run_praf_on(stage, step, l, 12)
        }) == Some(praf_semantics(caller, call, is_static, l)),
{
    reveal_with_fuel(run_praf_on, 1);
    if let Erc20Call::Transfer { recipient, amount } = call {
        if !is_static {
            lemma_run_praf_transfer(l, caller, recipient, amount, 12);
        }
    }
}

#[verifier::spinoff_prover]
proof fn lemma_praf_transfer_from(caller: Address, call: Erc20Call, is_static: bool, l: Ledger)
    requires
        call matches Erc20Call::TransferFrom { .. },
    ensures
        ({
            let (stage, step) = spec_praf_begin(caller, call, is_static);
            run_praf_on(stage, step, l, 12)
        }) == Some(praf_semantics(caller, call, is_static, l)),
{
    reveal_with_fuel(run_praf_on, 3);
    if let Erc20Call::TransferFrom { sender, recipient, amount } = call {
        if !is_static {
            let slot = spec_allowance_slot(sender, caller);
            let a = storage_at(l, slot);
            if a@ >= amount@ {
                if a@ == u256_max() {
                    lemma_run_praf_transfer(l, sender, recipient, amount, 11);
                } else {
                    let l1 = with_storage(l, slot, uint256_of((a@ - amount@) as nat));
                    lemma_run_praf_transfer(l1, sender, recipient, amount, 10);
                }
            }
        }
    }
}

#[verifier::spinoff_prover]
proof fn lemma_praf_mint(caller: Address, call: Erc20Call, is_static: bool, l: Ledger)
    requires
        call matches Erc20Call::Mint { .. },
    ensures
        ({
            let (stage, step) = spec_praf_begin(caller, call, is_static);
            run_praf_on(stage, step, l, 12)
        }) == Some(praf_semantics(caller, call, is_static, l)),
{
    reveal_with_fuel(run_praf_on, 2);
    if let Erc20Call::Mint { to, amount } = call {
        if !is_static {
            lemma_run_mint(l, to, amount, 11);
        }
    }
}

#[verifier::spinoff_prover]
proof fn lemma_praf_burn(caller: Address, call: Erc20Call, is_static: bool, l: Ledger)
    requires
        call matches Erc20Call::Burn { .. },
    ensures
        ({
            let (stage, step) = spec_praf_begin(caller, call, is_static);
            run_praf_on(stage, step, l, 12)
        }) == Some(praf_semantics(caller, call, is_static, l)),
{
    reveal_with_fuel(run_praf_on, 3);
    if let Erc20Call::Burn { from, amount } = call {
        if !is_static {
            if from != caller {
                let slot = spec_allowance_slot(from, caller);
                let a = storage_at(l, slot);
                if a@ >= amount@ {
                    if a@ == u256_max() {
                        lemma_run_burn(l, from, amount, 11);
                    } else {
                        let l1 = with_storage(l, slot, uint256_of((a@ - amount@) as nat));
                        lemma_run_burn(l1, from, amount, 10);
                    }
                }
            } else {
                lemma_run_burn(l, from, amount, 12);
            }
        }
    }
}

/// A decoded call of the PRAF precompile, run against a ledger host, does what the token's
/// rules say.
proof fn lemma_praf_call(caller: Address, call: Erc20Call, is_static: bool, l: Ledger)
    ensures
        ({
            let (stage, step) = spec_praf_begin(caller, call, is_static);
            run_praf_on(stage, step, l, 12)
        }) == Some(praf_semantics(caller, call, is_static, l)),
{
    match call {
        Erc20Call::Name => lemma_praf_name(caller, call, is_static, l),
        Erc20Call::Symbol => lemma_praf_symbol(caller, call, is_static, l),
        Erc20Call::Decimals => lemma_praf_decimals(caller, call, is_static, l),
        Erc20Call::TotalSupply => lemma_praf_total_supply(caller, call, is_static, l),
        Erc20Call::BalanceOf { .. } => lemma_praf_balance_of(caller, call, is_static, l),
        Erc20Call::Allowance { .. } => lemma_praf_allowance(caller, call, is_static, l),
        Erc20Call::Approve { .. } => lemma_praf_approve(caller, call, is_static, l),
        Erc20Call::SetMinter { .. } => lemma_praf_set_minter(caller, call, is_static, l),
        Erc20Call::Transfer { .. } => lemma_praf_transfer(caller, call, is_static, l),
        Erc20Call::TransferFrom { .. } => lemma_praf_transfer_from(caller, call, is_static, l),
        Erc20Call::Mint { .. } => lemma_praf_mint(caller, call, is_static, l),
        Erc20Call::Burn { .. } => lemma_praf_burn(caller, call, is_static, l),
    }
}

/// Running a call of the PRAF precompile against a ledger host gives what the token's rules
/// say of that call and that ledger.
pub proof fn law_praf_runs_token_semantics(
    caller: Address,
    input: Seq<u8>,
    is_static: bool,
    l: Ledger,
)
    ensures
        run_praf(caller, input, is_static, l) == Some(praf_expected(caller, input, is_static, l)),
{
    match spec_decode_call(input, Interface::WithBurn) {
        None => {
            reveal_with_fuel(run_praf_on, 1);
        },
        Some(call) => {
            lemma_praf_call(caller, call, is_static, l);
        },
    }
}

} // verus!
