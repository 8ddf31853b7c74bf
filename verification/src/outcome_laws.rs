//! When a running call succeeds and when it is refused, stated over its call data and the
//! ledger before, on each of the three entry points: a covered transfer goes through, a short
//! balance or allowance is refused with nothing changed, an approval records the allowance,
//! the administrator records the minter, and what mints and burns leave behind.

use vstd::prelude::*;

use crate::abi::{spec_decode_call, Erc20Call, Interface};
use crate::address::{
    lemma_address_word_roundtrip, spec_address_from_word, spec_admin_address, spec_zero_address,
    Address,
};
use crate::call_laws::{
    inspector_outcome, is_revert, lemma_decode_both_interfaces, moved, praf_outcome,
    precompile_outcome, returned_true,
};
use crate::host::{returned, reverted, CallResult, EventKind, Output, RevertReason, TokenLog};
use crate::inspector_model::law_inspector_runs_token_semantics;
use crate::ledger::{balance_of, storage_at, Ledger};
use crate::praf_model::{law_praf_runs_token_semantics, total_supply};
use crate::precompile_model::law_precompile_runs_token_semantics;
use crate::slots::{spec_allowance_slot, spec_minter_slot};
use crate::uint256::{lemma_uint256_of, u256_max, Uint256};

verus! {

/// A `transfer` to someone else that the caller's balance covers, and whose credit fits in a
/// word, returns `true`; on each entry point.
pub proof fn law_covered_transfer_succeeds(
    caller: Address,
    recipient: Address,
    amount: Uint256,
    input: Seq<u8>,
    l: Ledger,
)
    requires
        spec_decode_call(input, Interface::Plain) == Some(
            Erc20Call::Transfer { recipient, amount },
        ),
        caller != recipient,
        balance_of(l, caller)@ >= amount@,
        balance_of(l, recipient)@ + amount@ <= u256_max(),
    ensures
        inspector_outcome(caller, input, false, l).0 == returned_true(),
        precompile_outcome(caller, input, false, l).0 == returned_true(),
        praf_outcome(caller, input, false, l).0 == returned_true(),
{
    lemma_decode_both_interfaces(input, Erc20Call::Transfer { recipient, amount });
    law_inspector_runs_token_semantics(caller, input, false, l);
    law_precompile_runs_token_semantics(caller, input, false, l);
    law_praf_runs_token_semantics(caller, input, false, l);
    lemma_uint256_of((balance_of(l, caller)@ - amount@) as nat);
}

/// A `transfer` of more than the caller holds is refused, and the ledger stays as it was; on
/// each entry point.
pub proof fn law_short_transfer_refused(
    caller: Address,
    recipient: Address,
    amount: Uint256,
    input: Seq<u8>,
    l: Ledger,
)
    requires
        spec_decode_call(input, Interface::Plain) == Some(
            Erc20Call::Transfer { recipient, amount },
        ),
        balance_of(l, caller)@ < amount@,
    ensures
        is_revert(inspector_outcome(caller, input, false, l).0),
        is_revert(precompile_outcome(caller, input, false, l).0),
        is_revert(praf_outcome(caller, input, false, l).0),
        inspector_outcome(caller, input, false, l).1 == l,
        precompile_outcome(caller, input, false, l).1 == l,
        praf_outcome(caller, input, false, l).1 == l,
{
    lemma_decode_both_interfaces(input, Erc20Call::Transfer { recipient, amount });
    law_inspector_runs_token_semantics(caller, input, false, l);
    law_precompile_runs_token_semantics(caller, input, false, l);
    law_praf_runs_token_semantics(caller, input, false, l);
}

/// A `transferFrom` that the caller's allowance over the sender and the sender's balance both
/// cover, to someone other than the sender and with a credit that fits in a word, returns
/// `true`; on each entry point.
pub proof fn law_covered_transfer_from_succeeds(
    caller: Address,
    sender: Address,
    recipient: Address,
    amount: Uint256,
    input: Seq<u8>,
    l: Ledger,
)
    requires
        spec_decode_call(input, Interface::Plain) == Some(
            Erc20Call::TransferFrom { sender, recipient, amount },
        ),
        sender != recipient,
        storage_at(l, spec_allowance_slot(sender, caller))@ >= amount@,
        balance_of(l, sender)@ >= amount@,
        balance_of(l, recipient)@ + amount@ <= u256_max(),
    ensures
        inspector_outcome(caller, input, false, l).0 == returned_true(),
        precompile_outcome(caller, input, false, l).0 == returned_true(),
        praf_outcome(caller, input, false, l).0 == returned_true(),
{
    lemma_decode_both_interfaces(input, Erc20Call::TransferFrom { sender, recipient, amount });
    law_inspector_runs_token_semantics(caller, input, false, l);
    law_precompile_runs_token_semantics(caller, input, false, l);
    law_praf_runs_token_semantics(caller, input, false, l);
    lemma_uint256_of((balance_of(l, sender)@ - amount@) as nat);
}

/// A `transferFrom` of more than the caller's allowance over the sender is refused with
/// "Insufficient allowance", and the ledger stays as it was; on each entry point.
pub proof fn law_over_allowance_refused(
    caller: Address,
    sender: Address,
    recipient: Address,
    amount: Uint256,
    input: Seq<u8>,
    l: Ledger,
)
    requires
        spec_decode_call(input, Interface::Plain) == Some(
            Erc20Call::TransferFrom { sender, recipient, amount },
        ),
        storage_at(l, spec_allowance_slot(sender, caller))@ < amount@,
    ensures
        inspector_outcome(caller, input, false, l) == (
            Some(reverted(Output::Message(RevertReason::InsufficientAllowance))),
            l,
        ),
        precompile_outcome(caller, input, false, l) == (
            Some(reverted(Output::Message(RevertReason::InsufficientAllowance))),
            l,
        ),
        praf_outcome(caller, input, false, l) == (
            Some(reverted(Output::Message(RevertReason::InsufficientAllowance))),
            l,
        ),
{
    lemma_decode_both_interfaces(input, Erc20Call::TransferFrom { sender, recipient, amount });
    law_inspector_runs_token_semantics(caller, input, false, l);
    law_precompile_runs_token_semantics(caller, input, false, l);
    law_praf_runs_token_semantics(caller, input, false, l);
}

/// An `approve` returns `true`, records the amount as the caller's allowance for the spender,
/// and changes no balance and no other slot; on each entry point.
pub proof fn law_approve_records_allowance(
    caller: Address,
    spender: Address,
    amount: Uint256,
    input: Seq<u8>,
    l: Ledger,
)
    requires
        spec_decode_call(input, Interface::Plain) == Some(Erc20Call::Approve { spender, amount }),
    ensures
        approval_recorded(l, inspector_outcome(caller, input, false, l), caller, spender, amount),
        approval_recorded(l, precompile_outcome(caller, input, false, l), caller, spender, amount),
        approval_recorded(l, praf_outcome(caller, input, false, l), caller, spender, amount),
{
    lemma_decode_both_interfaces(input, Erc20Call::Approve { spender, amount });
    law_inspector_runs_token_semantics(caller, input, false, l);
    law_precompile_runs_token_semantics(caller, input, false, l);
    law_praf_runs_token_semantics(caller, input, false, l);
}

/// The call returned `true`, the owner's allowance for the spender is now `amount`, and no
/// balance and no other slot changed.
pub open spec fn approval_recorded(
    l: Ledger,
    outcome: (Option<CallResult>, Ledger),
    owner: Address,
    spender: Address,
    amount: Uint256,
) -> bool {
    let (r, l2) = outcome;
    &&& r == returned_true()
    &&& storage_at(l2, spec_allowance_slot(owner, spender)) == amount
    &&& forall|s: Uint256|
        s != spec_allowance_slot(owner, spender) ==> #[trigger] storage_at(l2, s) == storage_at(l, s)
    &&& forall|x: Address| #[trigger] balance_of(l2, x) == balance_of(l, x)
}

/// The call returned with no data, the minter slot now holds `minter`, and no balance
/// changed.
pub open spec fn minter_recorded(
    l: Ledger,
    outcome: (Option<CallResult>, Ledger),
    minter: Address,
) -> bool {
    let (r, l2) = outcome;
    &&& r == Some(returned(Output::Empty))
    &&& spec_address_from_word(storage_at(l2, spec_minter_slot())) == minter
    &&& forall|x: Address| #[trigger] balance_of(l2, x) == balance_of(l, x)
}

/// A `setMinter` by the administrator records the new minter; on each entry point.
pub proof fn law_admin_records_minter(minter: Address, input: Seq<u8>, l: Ledger)
    requires
        spec_decode_call(input, Interface::Plain) == Some(Erc20Call::SetMinter { minter }),
    ensures
        minter_recorded(l, inspector_outcome(spec_admin_address(), input, false, l), minter),
        minter_recorded(l, precompile_outcome(spec_admin_address(), input, false, l), minter),
        minter_recorded(l, praf_outcome(spec_admin_address(), input, false, l), minter),
{
    let admin = spec_admin_address();
    lemma_decode_both_interfaces(input, Erc20Call::SetMinter { minter });
    law_inspector_runs_token_semantics(admin, input, false, l);
    law_precompile_runs_token_semantics(admin, input, false, l);
    law_praf_runs_token_semantics(admin, input, false, l);
    lemma_address_word_roundtrip(minter);
}

/// A `mint` by the recorded minter or the administrator through the inspector, whose credit
/// fits in a word, returns with no data and raises the recipient's balance by the amount, no
/// other balance and no slot changing; through the precompile entry point, where the recipient
/// is not the zero address and the zero address holds the amount, it returns with no data and
/// moves the amount from the zero address to the recipient.
pub proof fn law_authorized_mint_credits(
    caller: Address,
    to: Address,
    amount: Uint256,
    input: Seq<u8>,
    l: Ledger,
)
    requires
        spec_decode_call(input, Interface::Plain) == Some(Erc20Call::Mint { to, amount }),
        caller == spec_address_from_word(storage_at(l, spec_minter_slot())) || caller
            == spec_admin_address(),
        balance_of(l, to)@ + amount@ <= u256_max(),
    ensures
        ({
            let (r, l2) = inspector_outcome(caller, input, false, l);
            &&& r == Some(returned(Output::Empty))
            &&& balance_of(l2, to)@ == balance_of(l, to)@ + amount@
            &&& forall|x: Address| x != to ==> #[trigger] balance_of(l2, x) == balance_of(l, x)
            &&& forall|s: Uint256| #[trigger] storage_at(l2, s) == storage_at(l, s)
        }),
        (to != spec_zero_address() && balance_of(l, spec_zero_address())@ >= amount@) ==> ({
            let (r, l2) = precompile_outcome(caller, input, false, l);
            &&& r == Some(returned(Output::Empty))
            &&& moved(l, l2, spec_zero_address(), to, amount)
        }),
{
    lemma_decode_both_interfaces(input, Erc20Call::Mint { to, amount });
    law_inspector_runs_token_semantics(caller, input, false, l);
    law_precompile_runs_token_semantics(caller, input, false, l);
    lemma_uint256_of(balance_of(l, to)@ + amount@);
    if balance_of(l, spec_zero_address())@ >= amount@ {
        lemma_uint256_of((balance_of(l, spec_zero_address())@ - amount@) as nat);
    }
}

/// A `mint` through the PRAF precompile, whoever calls, returns `true` and raises the
/// recipient's balance and the total supply by the amount, each capped at `2^256 - 1`; no
/// other balance changes.
pub proof fn law_praf_mint_credits(caller: Address, to: Address, amount: Uint256, input: Seq<u8>, l: Ledger)
    requires
        spec_decode_call(input, Interface::WithBurn) == Some(Erc20Call::Mint { to, amount }),
    ensures
        ({
            let (r, l2) = praf_outcome(caller, input, false, l);
            &&& r == returned_true()
            &&& balance_of(l2, to)@ == capped_sum(balance_of(l, to)@, amount@)
            &&& total_supply(l2)@ == capped_sum(total_supply(l)@, amount@)
            &&& forall|x: Address| x != to ==> #[trigger] balance_of(l2, x) == balance_of(l, x)
        }),
{
    law_praf_runs_token_semantics(caller, input, false, l);
    if balance_of(l, to)@ + amount@ <= u256_max() {
        lemma_uint256_of(balance_of(l, to)@ + amount@);
    }
    if total_supply(l)@ + amount@ <= u256_max() {
        lemma_uint256_of(total_supply(l)@ + amount@);
    }
    lemma_uint256_of(u256_max());
}

/// `a + b`, capped at `2^256 - 1`.
pub open spec fn capped_sum(a: nat, b: nat) -> nat {
    if a + b <= u256_max() {
        a + b
    } else {
        u256_max()
    }
}

/// Which `burn` calls on the PRAF precompile go through: one by a caller other than the
/// holder is refused with "Insufficient allowance for burn" and nothing changed where the
/// caller's allowance over the holder is short; otherwise it returns `true` exactly where the
/// holder's balance covers the amount, and is refused with "Insufficient balance for burn"
/// where it does not (with nothing changed where the holder burns their own tokens).
pub proof fn law_praf_burn_outcomes(caller: Address, from: Address, amount: Uint256, input: Seq<u8>, l: Ledger)
    requires
        spec_decode_call(input, Interface::WithBurn) == Some(Erc20Call::Burn { from, amount }),
    ensures
        (caller != from && storage_at(l, spec_allowance_slot(from, caller))@ < amount@) ==> praf_outcome(
            caller,
            input,
            false,
            l,
        ) == (Some(reverted(Output::Message(RevertReason::InsufficientAllowanceForBurn))), l),
        (caller == from || storage_at(l, spec_allowance_slot(from, caller))@ >= amount@) ==> {
            &&& balance_of(l, from)@ >= amount@ ==> praf_outcome(caller, input, false, l).0
                == returned_true()
            &&& balance_of(l, from)@ < amount@ ==> praf_outcome(caller, input, false, l).0 == Some(
                reverted(Output::Message(RevertReason::InsufficientBalanceForBurn)),
            )
        },
        (caller == from && balance_of(l, from)@ < amount@) ==> praf_outcome(caller, input, false, l).1
            == l,
{
    law_praf_runs_token_semantics(caller, input, false, l);
    if balance_of(l, from)@ >= amount@ {
        lemma_uint256_of((balance_of(l, from)@ - amount@) as nat);
    }
}

/// Once the administrator has recorded a minter, that minter's `mint` through the inspector,
/// with a credit that fits in a word, returns with no data and raises the recipient's
/// balance by the amount.
pub proof fn law_recorded_minter_may_mint(
    minter: Address,
    to: Address,
    amount: Uint256,
    set_input: Seq<u8>,
    mint_input: Seq<u8>,
    l: Ledger,
)
    requires
        spec_decode_call(set_input, Interface::Plain) == Some(Erc20Call::SetMinter { minter }),
        spec_decode_call(mint_input, Interface::Plain) == Some(Erc20Call::Mint { to, amount }),
        balance_of(l, to)@ + amount@ <= u256_max(),
    ensures
        ({
            let l1 = inspector_outcome(spec_admin_address(), set_input, false, l).1;
            let (r, l2) = inspector_outcome(minter, mint_input, false, l1);
            &&& r == Some(returned(Output::Empty))
            &&& balance_of(l2, to)@ == balance_of(l, to)@ + amount@
        }),
{
    law_admin_records_minter(minter, set_input, l);
    let l1 = inspector_outcome(spec_admin_address(), set_input, false, l).1;
    assert(balance_of(l1, to) == balance_of(l, to));
    law_authorized_mint_credits(minter, to, amount, mint_input, l1);
}

/// The result returned normally (did not revert and was not left unhandled).
pub open spec fn is_return(r: Option<CallResult>) -> bool {
    match r {
        Some(c) => c.outcome == crate::host::Outcome::Return,
        None => false,
    }
}

/// The event that a state-changing call logs when it goes through: `Transfer(from, to,
/// amount)` for a transfer, a `transferFrom`, a mint (from the zero address) and a burn (to
/// the zero address), `Approval(owner, spender, amount)` for an approval.
pub open spec fn event_of(caller: Address, call: Erc20Call) -> Option<TokenLog> {
    match call {
        Erc20Call::Transfer { recipient, amount } => Some(
            TokenLog { kind: EventKind::Transfer, first: caller, second: recipient, amount },
        ),
        Erc20Call::TransferFrom { sender, recipient, amount } => Some(
            TokenLog { kind: EventKind::Transfer, first: sender, second: recipient, amount },
        ),
        Erc20Call::Approve { spender, amount } => Some(
            TokenLog { kind: EventKind::Approval, first: caller, second: spender, amount },
        ),
        Erc20Call::Mint { to, amount } => Some(
            TokenLog { kind: EventKind::Transfer, first: spec_zero_address(), second: to, amount },
        ),
        Erc20Call::Burn { from, amount } => Some(
            TokenLog { kind: EventKind::Transfer, first: from, second: spec_zero_address(), amount },
        ),
        _ => None,
    }
}

/// A state-changing call that returns normally appends exactly its event to the logs; a call
/// that reverts appends nothing; on each entry point.
pub proof fn law_calls_that_go_through_log_their_event(
    caller: Address,
    call: Erc20Call,
    input: Seq<u8>,
    l: Ledger,
)
    requires
        spec_decode_call(input, Interface::Plain) == Some(call),
    ensures
        event_of(caller, call) matches Some(e) ==> {
            &&& is_return(inspector_outcome(caller, input, false, l).0) ==> inspector_outcome(
                caller,
                input,
                false,
                l,
            ).1.logs == l.logs.push(e)
            &&& is_return(precompile_outcome(caller, input, false, l).0) ==> precompile_outcome(
                caller,
                input,
                false,
                l,
            ).1.logs == l.logs.push(e)
            &&& is_return(praf_outcome(caller, input, false, l).0) ==> praf_outcome(
                caller,
                input,
                false,
                l,
            ).1.logs == l.logs.push(e)
        },
        is_revert(inspector_outcome(caller, input, false, l).0) ==> inspector_outcome(
            caller,
            input,
            false,
            l,
        ).1.logs == l.logs,
        is_revert(precompile_outcome(caller, input, false, l).0) ==> precompile_outcome(
            caller,
            input,
            false,
            l,
        ).1.logs == l.logs,
        is_revert(praf_outcome(caller, input, false, l).0) ==> praf_outcome(
            caller,
            input,
            false,
            l,
        ).1.logs == l.logs,
{
    lemma_decode_both_interfaces(input, call);
    law_inspector_runs_token_semantics(caller, input, false, l);
    law_precompile_runs_token_semantics(caller, input, false, l);
    law_praf_runs_token_semantics(caller, input, false, l);
}

/// A `burn` on the PRAF precompile that returns `true` logs a `Transfer` from the holder to
/// the zero address of the amount, and nothing else.
pub proof fn law_praf_burn_logs_transfer_to_zero(
    caller: Address,
    from: Address,
    amount: Uint256,
    input: Seq<u8>,
    l: Ledger,
)
    requires
        spec_decode_call(input, Interface::WithBurn) == Some(Erc20Call::Burn { from, amount }),
    ensures
        praf_outcome(caller, input, false, l).0 == returned_true() ==> praf_outcome(
            caller,
            input,
            false,
            l,
        ).1.logs == l.logs.push(event_of(caller, Erc20Call::Burn { from, amount }).unwrap()),
{
    law_praf_runs_token_semantics(caller, input, false, l);
}

/// A `transfer` to oneself that one's balance covers returns `true` and leaves every balance
/// as it was; on each entry point.
pub proof fn law_self_transfer_keeps_balances(caller: Address, amount: Uint256, input: Seq<u8>, l: Ledger)
    requires
        spec_decode_call(input, Interface::Plain) == Some(
            Erc20Call::Transfer { recipient: caller, amount },
        ),
        balance_of(l, caller)@ >= amount@,
    ensures
        inspector_outcome(caller, input, false, l).0 == returned_true(),
        precompile_outcome(caller, input, false, l).0 == returned_true(),
        praf_outcome(caller, input, false, l).0 == returned_true(),
        forall|x: Address| #[trigger]
            balance_of(inspector_outcome(caller, input, false, l).1, x) == balance_of(l, x),
        forall|x: Address| #[trigger]
            balance_of(precompile_outcome(caller, input, false, l).1, x) == balance_of(l, x),
        forall|x: Address| #[trigger]
            balance_of(praf_outcome(caller, input, false, l).1, x) == balance_of(l, x),
{
    lemma_decode_both_interfaces(input, Erc20Call::Transfer { recipient: caller, amount });
    law_inspector_runs_token_semantics(caller, input, false, l);
    law_precompile_runs_token_semantics(caller, input, false, l);
    law_praf_runs_token_semantics(caller, input, false, l);
    let b = balance_of(l, caller);
    lemma_uint256_of((b@ - amount@) as nat);
    crate::uint256::lemma_uint256_bound(b);
    lemma_uint256_of(b@);
    crate::uint256::lemma_uint256_of_view(b);
}

} // verus!
