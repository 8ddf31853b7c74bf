//! Properties of the token's rules that hold across calls: what a transfer does to balances,
//! what an approval does to allowances, who may mint and set the minter, and that static calls
//! and queries leave the ledger alone.

use vstd::prelude::*;

use crate::abi::Erc20Call;
use crate::address::{spec_address_from_word, spec_admin_address, Address};
use crate::host::{returned, reverted, Output, RevertReason, TransferStatus};
use crate::inspector_model::inspector_semantics;
use crate::ledger::{balance_of, journal_transfer, storage_at, Ledger};
use crate::praf_model::{praf_semantics, total_supply};
use crate::precompile_model::precompile_semantics;
use crate::slots::{spec_allowance_slot, spec_minter_slot};
use crate::uint256::{lemma_uint256_bound, lemma_uint256_of, u256_max, Uint256};

verus! {

/// Whether a call changes state when it is not static.
pub open spec fn is_state_changing(call: Erc20Call) -> bool {
    match call {
        Erc20Call::Transfer { .. } | Erc20Call::Approve { .. } | Erc20Call::TransferFrom { .. }
        | Erc20Call::Mint { .. } | Erc20Call::Burn { .. } | Erc20Call::SetMinter { .. } => true,
        _ => false,
    }
}

/// Whether a call only reads.
pub open spec fn is_query(call: Erc20Call) -> bool {
    !is_state_changing(call)
}

/// A transfer through the inspector by `caller` to another account that holds enough, and
/// whose recipient's balance does not overflow, returns `true`, takes the amount from the
/// caller, gives it to the recipient, and leaves every other balance and all storage as they
/// were.
pub proof fn law_inspector_transfer_moves_balance(
    caller: Address,
    to: Address,
    amount: Uint256,
    l: Ledger,
)
    requires
        caller != to,
        balance_of(l, caller)@ >= amount@,
        balance_of(l, to)@ + amount@ <= u256_max(),
    ensures
        ({
            let (r, l2) = inspector_semantics(
                caller,
                Erc20Call::Transfer { recipient: to, amount },
                false,
                l,
            );
            &&& r == Some(returned(Output::Bool(true)))
            &&& balance_of(l2, caller)@ == balance_of(l, caller)@ - amount@
            &&& balance_of(l2, to)@ == balance_of(l, to)@ + amount@
            &&& balance_of(l2, caller)@ + balance_of(l2, to)@ == balance_of(l, caller)@
                + balance_of(l, to)@
            &&& forall|x: Address|
                x != caller && x != to ==> #[trigger] balance_of(l2, x) == balance_of(l, x)
            &&& forall|s: Uint256| #[trigger] storage_at(l2, s) == storage_at(l, s)
        }),
{
    lemma_uint256_of((balance_of(l, caller)@ - amount@) as nat);
    lemma_uint256_of(balance_of(l, to)@ + amount@);
}

/// A transfer to oneself through the inspector that succeeds leaves the balance as it was.
pub proof fn law_inspector_self_transfer_keeps_balance(caller: Address, amount: Uint256, l: Ledger)
    requires
        balance_of(l, caller)@ >= amount@,
    ensures
        ({
            let (r, l2) = inspector_semantics(
                caller,
                Erc20Call::Transfer { recipient: caller, amount },
                false,
                l,
            );
            &&& r == Some(returned(Output::Bool(true)))
            &&& balance_of(l2, caller) == balance_of(l, caller)
        }),
{
    let b = balance_of(l, caller);
    lemma_uint256_bound(b);
    lemma_uint256_of((b@ - amount@) as nat);
    lemma_uint256_of(b@);
    crate::uint256::lemma_uint256_of_view(b);
}

/// A transfer through the inspector from an account that holds less than the amount reverts
/// with `"Insufficient balance"` and changes nothing.
pub proof fn law_inspector_short_balance_reverts(caller: Address, to: Address, amount: Uint256, l: Ledger)
    requires
        balance_of(l, caller)@ < amount@,
    ensures
        inspector_semantics(caller, Erc20Call::Transfer { recipient: to, amount }, false, l) == (
            Some(reverted(Output::Message(RevertReason::InsufficientBalance))),
            l,
        ),
{
}

/// After `owner` approves `spender` for `amount`, the allowance of `spender` over `owner`
/// reads `amount`, on each of the three entry points.
pub proof fn law_approve_then_allowance(
    owner: Address,
    spender: Address,
    amount: Uint256,
    reader: Address,
    reader_static: bool,
    l: Ledger,
)
    ensures
        ({
            let approve = Erc20Call::Approve { spender, amount };
            let query = Erc20Call::Allowance { owner, spender };
            let expect = Some(returned(Output::Uint(amount)));
            &&& inspector_semantics(
                reader,
                query,
                reader_static,
                inspector_semantics(owner, approve, false, l).1,
            ).0 == expect
            &&& precompile_semantics(
                reader,
                query,
                reader_static,
                precompile_semantics(owner, approve, false, l).1,
            ).0 == expect
            &&& praf_semantics(reader, query, reader_static, praf_semantics(owner, approve, false, l).1).0
                == expect
        }),
{
}

/// What a successful `transferFrom` leaves of the allowance `a` it found: `a - amount`, or
/// `a` itself where `a` is unlimited (`2^256 - 1`).
pub open spec fn allowance_spent(before: Ledger, after: Ledger, slot: Uint256, amount: Uint256) -> bool {
    let a = storage_at(before, slot);
    &&& amount@ <= a@
    &&& a@ == u256_max() ==> storage_at(after, slot) == a
    &&& a@ != u256_max() ==> storage_at(after, slot)@ == a@ - amount@
}

/// A `transferFrom` that returns `true` spends the amount from the allowance of the caller
/// over the sender, unless that allowance is unlimited, which stays; on each of the three
/// entry points.
pub proof fn law_transfer_from_spends_allowance(
    caller: Address,
    sender: Address,
    recipient: Address,
    amount: Uint256,
    l: Ledger,
)
    ensures
        ({
            let slot = spec_allowance_slot(sender, caller);
            let call = Erc20Call::TransferFrom { sender, recipient, amount };
            let ok = Some(returned(Output::Bool(true)));
            &&& inspector_semantics(caller, call, false, l).0 == ok ==> allowance_spent(
                l,
                inspector_semantics(caller, call, false, l).1,
                slot,
                amount,
            )
            &&& precompile_semantics(caller, call, false, l).0 == ok ==> allowance_spent(
                l,
                precompile_semantics(caller, call, false, l).1,
                slot,
                amount,
            )
            &&& praf_semantics(caller, call, false, l).0 == ok ==> allowance_spent(
                l,
                praf_semantics(caller, call, false, l).1,
                slot,
                amount,
            )
        }),
{
    let slot = spec_allowance_slot(sender, caller);
    let a = storage_at(l, slot);
    if a@ >= amount@ && a@ != u256_max() {
        lemma_uint256_of((a@ - amount@) as nat);
    }
}

/// A journal transfer between two accounts that moves the balance keeps their sum, and
/// leaves every other account and all storage alone.
pub proof fn law_journal_transfer_conserves(from: Address, to: Address, amount: Uint256, l: Ledger)
    requires
        from != to,
    ensures
        ({
            let (status, l2) = journal_transfer(l, from, to, amount);
            status == TransferStatus::Moved ==> {
                &&& balance_of(l2, from)@ + balance_of(l2, to)@ == balance_of(l, from)@
                    + balance_of(l, to)@
                &&& balance_of(l2, from)@ == balance_of(l, from)@ - amount@
                &&& forall|x: Address|
                    x != from && x != to ==> #[trigger] balance_of(l2, x) == balance_of(l, x)
                &&& l2.storage == l.storage
            }
        }),
{
    if balance_of(l, from)@ >= amount@ && balance_of(l, to)@ + amount@ <= u256_max() {
        lemma_uint256_of((balance_of(l, from)@ - amount@) as nat);
        lemma_uint256_of(balance_of(l, to)@ + amount@);
    }
}

/// A `transferFrom` for more than the allowance reverts with `"Insufficient allowance"` and
/// changes nothing, on each of the three entry points.
pub proof fn law_transfer_from_over_allowance_reverts(
    caller: Address,
    sender: Address,
    recipient: Address,
    amount: Uint256,
    l: Ledger,
)
    requires
        storage_at(l, spec_allowance_slot(sender, caller))@ < amount@,
    ensures
        ({
            let call = Erc20Call::TransferFrom { sender, recipient, amount };
            let expect = (Some(reverted(Output::Message(RevertReason::InsufficientAllowance))), l);
            &&& inspector_semantics(caller, call, false, l) == expect
            &&& precompile_semantics(caller, call, false, l) == expect
            &&& praf_semantics(caller, call, false, l) == expect
        }),
{
}

/// In a static context a state-changing call reverts with no data and changes nothing, on
/// each of the three entry points (where the call is part of its interface).
pub proof fn law_static_calls_change_nothing(caller: Address, call: Erc20Call, l: Ledger)
    requires
        is_state_changing(call),
    ensures
        call !is Burn ==> inspector_semantics(caller, call, true, l) == (
            Some(reverted(Output::Empty)),
            l,
        ),
        call !is Burn ==> precompile_semantics(caller, call, true, l) == (
            Some(reverted(Output::Empty)),
            l,
        ),
        praf_semantics(caller, call, true, l) == (Some(reverted(Output::Empty)), l),
{
}

/// Queries change nothing, on each of the three entry points.
pub proof fn law_queries_change_nothing(caller: Address, call: Erc20Call, is_static: bool, l: Ledger)
    requires
        is_query(call),
    ensures
        inspector_semantics(caller, call, is_static, l).1 == l,
        precompile_semantics(caller, call, is_static, l).1 == l,
        praf_semantics(caller, call, is_static, l).1 == l,
{
}

/// Only the administrator can set the minter: anyone else is refused and nothing changes,
/// on each of the three entry points.
pub proof fn law_only_admin_sets_minter(caller: Address, minter: Address, l: Ledger)
    requires
        caller != spec_admin_address(),
    ensures
        ({
            let call = Erc20Call::SetMinter { minter };
            &&& inspector_semantics(caller, call, false, l) == (
                Some(reverted(Output::Message(RevertReason::OnlyAdminSetMinter))),
                l,
            )
            &&& precompile_semantics(caller, call, false, l) == (
                Some(reverted(Output::Message(RevertReason::OnlyAdminSetMinter))),
                l,
            )
            &&& praf_semantics(caller, call, false, l) == (
                Some(reverted(Output::Message(RevertReason::OnlyAdmin))),
                l,
            )
        }),
{
}

/// After the administrator sets a minter, the minter slot holds the new minter's address.
pub proof fn law_set_minter_records_minter(minter: Address, l: Ledger)
    ensures
        ({
            let call = Erc20Call::SetMinter { minter };
            let admin = spec_admin_address();
            &&& spec_address_from_word(
                storage_at(inspector_semantics(admin, call, false, l).1, spec_minter_slot()),
            ) == minter
            &&& spec_address_from_word(
                storage_at(precompile_semantics(admin, call, false, l).1, spec_minter_slot()),
            ) == minter
            &&& spec_address_from_word(
                storage_at(praf_semantics(admin, call, false, l).1, spec_minter_slot()),
            ) == minter
        }),
{
    crate::address::lemma_address_word_roundtrip(minter);
}

/// Through the inspector and the precompile entry point, a caller that is neither the
/// recorded minter nor the administrator cannot mint: the call reverts and nothing changes.
pub proof fn law_only_minter_or_admin_mints(caller: Address, to: Address, amount: Uint256, l: Ledger)
    requires
        caller != spec_address_from_word(storage_at(l, spec_minter_slot())),
        caller != spec_admin_address(),
    ensures
        ({
            let call = Erc20Call::Mint { to, amount };
            let expect = (Some(reverted(Output::Message(RevertReason::OnlyMinterOrAdmin))), l);
            &&& inspector_semantics(caller, call, false, l) == expect
            &&& precompile_semantics(caller, call, false, l) == expect
        }),
{
}

/// A mint through the PRAF precompile that does not saturate raises both the recipient's
/// balance and the total supply by the amount.
pub proof fn law_praf_mint_raises_balance_and_supply(
    caller: Address,
    to: Address,
    amount: Uint256,
    l: Ledger,
)
    requires
        balance_of(l, to)@ + amount@ <= u256_max(),
        total_supply(l)@ + amount@ <= u256_max(),
    ensures
        ({
            let (r, l2) = praf_semantics(caller, Erc20Call::Mint { to, amount }, false, l);
            &&& r == Some(returned(Output::Bool(true)))
            &&& balance_of(l2, to)@ == balance_of(l, to)@ + amount@
            &&& total_supply(l2)@ == total_supply(l)@ + amount@
        }),
{
    lemma_uint256_of(balance_of(l, to)@ + amount@);
    lemma_uint256_of(total_supply(l)@ + amount@);
}

/// Through the PRAF precompile, a holder who burns what was just minted to them gets back
/// the balance and the total supply they had, where the mint did not saturate.
pub proof fn law_praf_burn_undoes_mint(
    minter: Address,
    holder: Address,
    amount: Uint256,
    l: Ledger,
)
    requires
        balance_of(l, holder)@ + amount@ <= u256_max(),
        total_supply(l)@ + amount@ <= u256_max(),
    ensures
        ({
            let l1 = praf_semantics(minter, Erc20Call::Mint { to: holder, amount }, false, l).1;
            let (r, l2) = praf_semantics(
                holder,
                Erc20Call::Burn { from: holder, amount },
                false,
                l1,
            );
            &&& r == Some(returned(Output::Bool(true)))
            &&& balance_of(l2, holder) == balance_of(l, holder)
            &&& total_supply(l2) == total_supply(l)
        }),
{
    let b = balance_of(l, holder);
    let t = total_supply(l);
    lemma_uint256_of(b@ + amount@);
    lemma_uint256_of(t@ + amount@);
    lemma_uint256_of(b@);
    lemma_uint256_of(t@);
    crate::uint256::lemma_uint256_of_view(b);
    crate::uint256::lemma_uint256_of_view(t);
}

} // verus!
