//! What running a call does, stated over its call data, the ledger before and the result and
//! ledger after, on each of the three entry points: who pays in a transfer, what an allowance
//! becomes, what a burn takes, and what the queries answer.

use vstd::prelude::*;

use crate::abi::{spec_decode_call, Erc20Call, Interface};
use crate::address::{spec_address_from_word, spec_admin_address, Address};
use crate::host::{returned, reverted, CallResult, Output, RevertReason};
use crate::inspector_model::{law_inspector_runs_token_semantics, run_inspector};
use crate::laws::allowance_spent;
use crate::ledger::{balance_of, storage_at, Ledger};
use crate::praf_model::{law_praf_runs_token_semantics, run_praf, total_supply};
use crate::precompile_model::{law_precompile_runs_token_semantics, run_precompile};
use crate::slots::{spec_allowance_slot, spec_minter_slot, spec_total_supply_slot};
use crate::uint256::{lemma_uint256_of, u256_max, Uint256};

verus! {

/// The result and the ledger after the inspector runs a call against the ledger.
pub open spec fn inspector_outcome(caller: Address, input: Seq<u8>, is_static: bool, l: Ledger) -> (
    Option<CallResult>,
    Ledger,
) {
    run_inspector(caller, input, is_static, l).unwrap()
}

/// The result and the ledger after the precompile entry point runs a call against the ledger.
pub open spec fn precompile_outcome(caller: Address, input: Seq<u8>, is_static: bool, l: Ledger) -> (
    Option<CallResult>,
    Ledger,
) {
    run_precompile(caller, input, is_static, l).unwrap()
}

/// The result and the ledger after the PRAF precompile runs a call against the ledger.
pub open spec fn praf_outcome(caller: Address, input: Seq<u8>, is_static: bool, l: Ledger) -> (
    Option<CallResult>,
    Ledger,
) {
    run_praf(caller, input, is_static, l).unwrap()
}

/// `amount` went from `from` to `to`, and no other balance changed.
pub open spec fn moved(l: Ledger, l2: Ledger, from: Address, to: Address, amount: Uint256) -> bool {
    &&& balance_of(l2, from)@ == balance_of(l, from)@ - amount@
    &&& balance_of(l2, to)@ == balance_of(l, to)@ + amount@
    &&& forall|x: Address|
        x != from && x != to ==> #[trigger] balance_of(l2, x) == balance_of(l, x)
}

/// The result of a call that returned `true`.
pub open spec fn returned_true() -> Option<CallResult> {
    Some(returned(Output::Bool(true)))
}

/// A result that returned one `uint256` of value `v`.
pub open spec fn returns_uint(r: Option<CallResult>, v: nat) -> bool {
    match r {
        Some(c) => c.outcome == crate::host::Outcome::Return && match c.output {
            Output::Uint(d) => d@ == v,
            _ => false,
        },
        None => false,
    }
}

/// A result that reverted.
pub open spec fn is_revert(r: Option<CallResult>) -> bool {
    match r {
        Some(c) => c.outcome == crate::host::Outcome::Revert,
        None => false,
    }
}

/// Call data that decodes to a call other than `burn` decodes to it in both interfaces.
pub proof fn lemma_decode_both_interfaces(input: Seq<u8>, call: Erc20Call)
    requires
        spec_decode_call(input, Interface::Plain) == Some(call),
    ensures
        spec_decode_call(input, Interface::WithBurn) == Some(call),
        !(call is Burn),
{
}

/// Every run of a decoded call finishes within its fuel, on each entry point.
pub proof fn law_runs_finish(caller: Address, input: Seq<u8>, is_static: bool, l: Ledger)
    ensures
        run_inspector(caller, input, is_static, l) is Some,
        run_precompile(caller, input, is_static, l) is Some,
        run_praf(caller, input, is_static, l) is Some,
{
    law_inspector_runs_token_semantics(caller, input, is_static, l);
    law_precompile_runs_token_semantics(caller, input, is_static, l);
    law_praf_runs_token_semantics(caller, input, is_static, l);
}

/// A `transfer` that returns `true` takes the amount from the caller and gives it to the
/// recipient, and no other balance changes; on each entry point.
pub proof fn law_transfer_moves_callers_tokens(
    caller: Address,
    recipient: Address,
    amount: Uint256,
    input: Seq<u8>,
    l: Ledger,
)
    requires
        spec_decode_call(input, Interface::Plain) == Some(
            Erc20Call::Transfer { recipient, amount },
        ),
        caller != recipient,
    ensures
        inspector_outcome(caller, input, false, l).0 == returned_true() ==> moved(
            l,
            inspector_outcome(caller, input, false, l).1,
            caller,
            recipient,
            amount,
        ),
        precompile_outcome(caller, input, false, l).0 == returned_true() ==> moved(
            l,
            precompile_outcome(caller, input, false, l).1,
            caller,
            recipient,
            amount,
        ),
        praf_outcome(caller, input, false, l).0 == returned_true() ==> moved(
            l,
            praf_outcome(caller, input, false, l).1,
            caller,
            recipient,
            amount,
        ),
{
    lemma_decode_both_interfaces(input, Erc20Call::Transfer { recipient, amount });
    law_inspector_runs_token_semantics(caller, input, false, l);
    law_precompile_runs_token_semantics(caller, input, false, l);
    law_praf_runs_token_semantics(caller, input, false, l);
    if balance_of(l, caller)@ >= amount@ {
        lemma_uint256_of((balance_of(l, caller)@ - amount@) as nat);
        if balance_of(l, recipient)@ + amount@ <= u256_max() {
            lemma_uint256_of(balance_of(l, recipient)@ + amount@);
        }
    }
}

/// A `transferFrom` that returns `true` takes the amount from the sender named in the call
/// (not from the caller) and gives it to the recipient, no other balance changes, and the
/// caller's allowance over the sender is spent by the amount unless it is unlimited; on each
/// entry point.
pub proof fn law_transfer_from_moves_senders_tokens(
    caller: Address,
    sender: Address,
    recipient: Address,
    amount: Uint256,
    input: Seq<u8>,
    l: Ledger,
)
    requires
        spec_decode_call(input, Interface::Plain) == Some(
            Erc20Call::TransferFrom { sender, recipient, amount },
        ),
        sender != recipient,
    ensures
        ({
            let slot = spec_allowance_slot(sender, caller);
            let (r, l2) = inspector_outcome(caller, input, false, l);
            r == returned_true() ==> moved(l, l2, sender, recipient, amount) && allowance_spent(
                l,
                l2,
                slot,
                amount,
            )
        }),
        ({
            let slot = spec_allowance_slot(sender, caller);
            let (r, l2) = precompile_outcome(caller, input, false, l);
            r == returned_true() ==> moved(l, l2, sender, recipient, amount) && allowance_spent(
                l,
                l2,
                slot,
                amount,
            )
        }),
        ({
            let slot = spec_allowance_slot(sender, caller);
            let (r, l2) = praf_outcome(caller, input, false, l);
            r == returned_true() ==> moved(l, l2, sender, recipient, amount) && allowance_spent(
                l,
                l2,
                slot,
                amount,
            )
        }),
{
    lemma_decode_both_interfaces(input, Erc20Call::TransferFrom { sender, recipient, amount });
    law_inspector_runs_token_semantics(caller, input, false, l);
    law_precompile_runs_token_semantics(caller, input, false, l);
    law_praf_runs_token_semantics(caller, input, false, l);
    let slot = spec_allowance_slot(sender, caller);
    let a = storage_at(l, slot);
    if a@ >= amount@ && a@ != u256_max() {
        lemma_uint256_of((a@ - amount@) as nat);
    }
    if balance_of(l, sender)@ >= amount@ {
        lemma_uint256_of((balance_of(l, sender)@ - amount@) as nat);
        if balance_of(l, recipient)@ + amount@ <= u256_max() {
            lemma_uint256_of(balance_of(l, recipient)@ + amount@);
        }
    }
}

/// A `burn` on the PRAF precompile by a caller other than the holder that returns `true`
/// spends the caller's allowance over the holder by the amount (unless it is unlimited), takes
/// the amount from the holder, and lowers the total supply by it (floored at zero). The
/// allowance's slot is taken to differ from the total supply's slot.
pub proof fn law_praf_burn_through_allowance(
    caller: Address,
    from: Address,
    amount: Uint256,
    input: Seq<u8>,
    l: Ledger,
)
    requires
        spec_decode_call(input, Interface::WithBurn) == Some(Erc20Call::Burn { from, amount }),
        caller != from,
        spec_allowance_slot(from, caller) != spec_total_supply_slot(),
    ensures
        ({
            let (r, l2) = praf_outcome(caller, input, false, l);
            r == returned_true() ==> {
                &&& allowance_spent(l, l2, spec_allowance_slot(from, caller), amount)
                &&& balance_of(l2, from)@ == balance_of(l, from)@ - amount@
                &&& total_supply(l2)@ == if total_supply(l)@ >= amount@ {
                    total_supply(l)@ - amount@
                } else {
                    0
                }
                &&& forall|x: Address| x != from ==> #[trigger] balance_of(l2, x) == balance_of(l, x)
            }
        }),
{
    law_praf_runs_token_semantics(caller, input, false, l);
    let slot = spec_allowance_slot(from, caller);
    let a = storage_at(l, slot);
    if a@ >= amount@ && a@ != u256_max() {
        lemma_uint256_of((a@ - amount@) as nat);
    }
    if balance_of(l, from)@ >= amount@ {
        lemma_uint256_of((balance_of(l, from)@ - amount@) as nat);
    }
    if total_supply(l)@ >= amount@ {
        lemma_uint256_of((total_supply(l)@ - amount@) as nat);
    }
    lemma_uint256_of(0);
}

/// A `burn` on the PRAF precompile by the holder that returns `true` takes the amount from
/// the holder and lowers the total supply by it (floored at zero), and touches no allowance.
pub proof fn law_praf_burn_own_tokens(caller: Address, amount: Uint256, input: Seq<u8>, l: Ledger)
    requires
        spec_decode_call(input, Interface::WithBurn) == Some(Erc20Call::Burn { from: caller, amount }),
    ensures
        ({
            let (r, l2) = praf_outcome(caller, input, false, l);
            r == returned_true() ==> {
                &&& balance_of(l2, caller)@ == balance_of(l, caller)@ - amount@
                &&& total_supply(l2)@ == if total_supply(l)@ >= amount@ {
                    total_supply(l)@ - amount@
                } else {
                    0
                }
                &&& forall|x: Address| x != caller ==> #[trigger] balance_of(l2, x) == balance_of(l, x)
                &&& forall|s: Uint256|
                    s != spec_total_supply_slot() ==> #[trigger] storage_at(l2, s) == storage_at(l, s)
            }
        }),
{
    law_praf_runs_token_semantics(caller, input, false, l);
    if balance_of(l, caller)@ >= amount@ {
        lemma_uint256_of((balance_of(l, caller)@ - amount@) as nat);
    }
    if total_supply(l)@ >= amount@ {
        lemma_uint256_of((total_supply(l)@ - amount@) as nat);
    }
    lemma_uint256_of(0);
}

/// The queries answer from the ledger, whoever calls, and change nothing: `balanceOf` gives
/// the account's balance, `allowance` the stored allowance of the spender over the owner,
/// `decimals` 18, `name` and `symbol` the token's name and symbol, and `totalSupply` the
/// largest word (on the PRAF precompile, the recorded total supply); on each entry point.
pub proof fn law_queries_answer_from_ledger(
    caller: Address,
    call: Erc20Call,
    input: Seq<u8>,
    is_static: bool,
    l: Ledger,
)
    requires
        spec_decode_call(input, Interface::Plain) == Some(call),
    ensures
        ({
            let answer = match call {
                Erc20Call::BalanceOf { account } => Some(balance_of(l, account)),
                Erc20Call::Allowance { owner, spender } => Some(
                    storage_at(l, spec_allowance_slot(owner, spender)),
                ),
                _ => None,
            };
            answer matches Some(v) ==> {
                &&& inspector_outcome(caller, input, is_static, l) == (
                    Some(returned(Output::Uint(v))),
                    l,
                )
                &&& precompile_outcome(caller, input, is_static, l) == (
                    Some(returned(Output::Uint(v))),
                    l,
                )
                &&& praf_outcome(caller, input, is_static, l) == (
                    Some(returned(Output::Uint(v))),
                    l,
                )
            }
        }),
        call is Decimals ==> ({
            &&& returns_uint(inspector_outcome(caller, input, is_static, l).0, 18)
            &&& returns_uint(precompile_outcome(caller, input, is_static, l).0, 18)
            &&& returns_uint(praf_outcome(caller, input, is_static, l).0, 18)
        }),
        call is TotalSupply ==> ({
            &&& returns_uint(inspector_outcome(caller, input, is_static, l).0, u256_max())
            &&& returns_uint(precompile_outcome(caller, input, is_static, l).0, u256_max())
            &&& praf_outcome(caller, input, is_static, l) == (
                Some(returned(Output::Uint(total_supply(l)))),
                l,
            )
        }),
        call is Name ==> inspector_outcome(caller, input, is_static, l) == (
            Some(returned(Output::Name)),
            l,
        ) && precompile_outcome(caller, input, is_static, l) == (
            Some(returned(Output::Name)),
            l,
        ) && praf_outcome(caller, input, is_static, l) == (Some(returned(Output::Name)), l),
        call is Symbol ==> inspector_outcome(caller, input, is_static, l) == (
            Some(returned(Output::Symbol)),
            l,
        ) && precompile_outcome(caller, input, is_static, l) == (
            Some(returned(Output::Symbol)),
            l,
        ) && praf_outcome(caller, input, is_static, l) == (Some(returned(Output::Symbol)), l),
{
    lemma_decode_both_interfaces(input, call);
    law_inspector_runs_token_semantics(caller, input, is_static, l);
    law_precompile_runs_token_semantics(caller, input, is_static, l);
    law_praf_runs_token_semantics(caller, input, is_static, l);
    lemma_uint256_of(18);
    lemma_uint256_of(u256_max());
}

/// After `owner` approves `spender` for `amount`, an `allowance(owner, spender)` query by
/// anyone answers `amount`; on each entry point.
pub proof fn law_approve_then_allowance_answers(
    owner: Address,
    spender: Address,
    amount: Uint256,
    approve: Seq<u8>,
    query: Seq<u8>,
    reader: Address,
    reader_static: bool,
    l: Ledger,
)
    requires
        spec_decode_call(approve, Interface::Plain) == Some(Erc20Call::Approve { spender, amount }),
        spec_decode_call(query, Interface::Plain) == Some(Erc20Call::Allowance { owner, spender }),
    ensures
        inspector_outcome(reader, query, reader_static, inspector_outcome(owner, approve, false, l).1).0
            == Some(returned(Output::Uint(amount))),
        precompile_outcome(
            reader,
            query,
            reader_static,
            precompile_outcome(owner, approve, false, l).1,
        ).0 == Some(returned(Output::Uint(amount))),
        praf_outcome(reader, query, reader_static, praf_outcome(owner, approve, false, l).1).0
            == Some(returned(Output::Uint(amount))),
{
    lemma_decode_both_interfaces(approve, Erc20Call::Approve { spender, amount });
    lemma_decode_both_interfaces(query, Erc20Call::Allowance { owner, spender });
    law_inspector_runs_token_semantics(owner, approve, false, l);
    law_precompile_runs_token_semantics(owner, approve, false, l);
    law_praf_runs_token_semantics(owner, approve, false, l);
    let l1 = inspector_outcome(owner, approve, false, l).1;
    let l2 = precompile_outcome(owner, approve, false, l).1;
    let l3 = praf_outcome(owner, approve, false, l).1;
    law_inspector_runs_token_semantics(reader, query, reader_static, l1);
    law_precompile_runs_token_semantics(reader, query, reader_static, l2);
    law_praf_runs_token_semantics(reader, query, reader_static, l3);
}

/// In a static context a state-changing call reverts with no data and changes nothing; on
/// each entry point.
pub proof fn law_static_runs_change_nothing(caller: Address, call: Erc20Call, input: Seq<u8>, l: Ledger)
    requires
        spec_decode_call(input, Interface::Plain) == Some(call),
        crate::laws::is_state_changing(call),
    ensures
        inspector_outcome(caller, input, true, l) == (Some(reverted(Output::Empty)), l),
        precompile_outcome(caller, input, true, l) == (Some(reverted(Output::Empty)), l),
        praf_outcome(caller, input, true, l) == (Some(reverted(Output::Empty)), l),
{
    lemma_decode_both_interfaces(input, call);
    law_inspector_runs_token_semantics(caller, input, true, l);
    law_precompile_runs_token_semantics(caller, input, true, l);
    law_praf_runs_token_semantics(caller, input, true, l);
}

/// A caller other than the administrator cannot set the minter, and a caller that is neither
/// the recorded minter nor the administrator cannot mint through the inspector or the
/// precompile entry point: the call reverts and nothing changes.
pub proof fn law_runs_guard_minting(caller: Address, call: Erc20Call, input: Seq<u8>, l: Ledger)
    requires
        spec_decode_call(input, Interface::Plain) == Some(call),
        caller != spec_admin_address(),
    ensures
        call is SetMinter ==> {
            &&& inspector_outcome(caller, input, false, l).1 == l
            &&& precompile_outcome(caller, input, false, l).1 == l
            &&& praf_outcome(caller, input, false, l).1 == l
            &&& is_revert(inspector_outcome(caller, input, false, l).0)
            &&& is_revert(precompile_outcome(caller, input, false, l).0)
            &&& is_revert(praf_outcome(caller, input, false, l).0)
        },
        (call is Mint && caller != spec_address_from_word(storage_at(l, spec_minter_slot())))
            ==> {
            &&& inspector_outcome(caller, input, false, l) == (
                Some(reverted(Output::Message(RevertReason::OnlyMinterOrAdmin))),
                l,
            )
            &&& precompile_outcome(caller, input, false, l) == (
                Some(reverted(Output::Message(RevertReason::OnlyMinterOrAdmin))),
                l,
            )
        },
{
    lemma_decode_both_interfaces(input, call);
    law_inspector_runs_token_semantics(caller, input, false, l);
    law_precompile_runs_token_semantics(caller, input, false, l);
    law_praf_runs_token_semantics(caller, input, false, l);
}

} // verus!
