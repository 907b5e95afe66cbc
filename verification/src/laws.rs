use crate::error::ContractError;
use crate::expiration::{Expiration, Moment};
use crate::identity::Id;
use crate::model::{max_amount, Call, LedgerState, Request};
use crate::totals::{lemma_total_bounds, total};
use crate::validity::{lemma_allowances_spent, lemma_balances_moved, lemma_balances_with};
use vstd::prelude::*;

verus! {

/// A mint that is accepted adds exactly the requested amount to the supply
/// and to the recipient, touches nothing else, and keeps the ledger valid.
pub proof fn lemma_mint_exact(s: LedgerState, caller: Id, recipient: Id, amount: nat)
    requires
        s.inv(),
    ensures
        s.mint(caller, recipient, amount) matches Ok(next) ==> {
            &&& next.inv()
            &&& next.total_supply == s.total_supply + amount
            &&& next.balance_of(recipient) == s.balance_of(recipient) + amount
            &&& forall|k: Id| k != recipient ==> next.balance_of(k) == #[trigger] s.balance_of(k)
            &&& next.allowances == s.allowances
            &&& next.mint == s.mint
        },
{
    lemma_balances_with(s, recipient, s.balance_of(recipient) + amount);
}

/// A burn that is accepted takes exactly the requested amount from the
/// supply and from the caller, touches nothing else, and keeps the ledger
/// valid.
pub proof fn lemma_burn_exact(s: LedgerState, caller: Id, amount: nat)
    requires
        s.inv(),
    ensures
        s.burn(caller, amount) matches Ok(next) ==> {
            &&& next.inv()
            &&& next.total_supply == s.total_supply - amount
            &&& next.balance_of(caller) == s.balance_of(caller) - amount
            &&& forall|k: Id| k != caller ==> next.balance_of(k) == #[trigger] s.balance_of(k)
            &&& next.allowances == s.allowances
            &&& next.mint == s.mint
        },
{
    lemma_total_bounds(s.balances, caller);
    if s.balance_of(caller) >= amount {
        lemma_balances_with(s, caller, (s.balance_of(caller) - amount) as nat);
    }
}

/// A burn on another's behalf that is accepted takes exactly the requested
/// amount from the supply, from the owner and from the allowance, and
/// keeps the ledger valid.
pub proof fn lemma_burn_from_exact(s: LedgerState, caller: Id, owner: Id, amount: nat, now: Moment)
    requires
        s.inv(),
    ensures
        s.burn_from(caller, owner, amount, now) matches Ok(next) ==> {
            &&& next.inv()
            &&& next.total_supply == s.total_supply - amount
            &&& next.balance_of(owner) == s.balance_of(owner) - amount
            &&& forall|k: Id| k != owner ==> next.balance_of(k) == #[trigger] s.balance_of(k)
            &&& next.stored_allowance(owner, caller).amount == s.stored_allowance(
                owner,
                caller,
            ).amount - amount
            &&& next.mint == s.mint
        },
{
    lemma_total_bounds(s.balances, owner);
    if s.burn_from(caller, owner, amount, now) is Ok {
        lemma_balances_with(s, owner, (s.balance_of(owner) - amount) as nat);
        lemma_allowances_spent(s, owner, caller, amount);
    }
}

/// Neither kind of transfer ever changes the total supply: what is
/// accepted moves exactly the requested amount from one holder to the
/// other and keeps the ledger valid.
pub proof fn lemma_transfers_keep_supply(
    s: LedgerState,
    caller: Id,
    owner: Id,
    recipient: Id,
    amount: nat,
    now: Moment,
)
    requires
        s.inv(),
    ensures
        s.transfer(caller, recipient, amount) matches Ok(next) ==> {
            &&& next.inv()
            &&& next.total_supply == s.total_supply
            &&& caller != recipient ==> next.balance_of(caller) == s.balance_of(caller) - amount
            &&& caller != recipient ==> next.balance_of(recipient) == s.balance_of(recipient)
                + amount
            &&& caller == recipient ==> next.balance_of(caller) == s.balance_of(caller)
            &&& forall|k: Id|
                k != caller && k != recipient ==> next.balance_of(k) == #[trigger] s.balance_of(k)
            &&& next.allowances == s.allowances
            &&& next.mint == s.mint
        },
        s.transfer_from(caller, owner, recipient, amount, now) matches Ok(next) ==> {
            &&& next.inv()
            &&& next.total_supply == s.total_supply
            &&& owner != recipient ==> next.balance_of(owner) == s.balance_of(owner) - amount
            &&& owner != recipient ==> next.balance_of(recipient) == s.balance_of(recipient)
                + amount
            &&& owner == recipient ==> next.balance_of(owner) == s.balance_of(owner)
            &&& forall|k: Id|
                k != owner && k != recipient ==> next.balance_of(k) == #[trigger] s.balance_of(k)
            &&& next.stored_allowance(owner, caller).amount == s.stored_allowance(
                owner,
                caller,
            ).amount - amount
            &&& next.mint == s.mint
        },
{
    if s.transfer(caller, recipient, amount) is Ok {
        lemma_balances_moved(s, caller, recipient, amount);
    }
    if s.transfer_from(caller, owner, recipient, amount, now) is Ok {
        lemma_balances_moved(s, owner, recipient, amount);
        lemma_allowances_spent(s, owner, caller, amount);
    }
}

/// Raising an allowance fails only on overflow; else it adds exactly the
/// amount to the stored record, touches neither balances nor supply, and
/// keeps the ledger valid.
pub proof fn lemma_increase_exact(
    s: LedgerState,
    caller: Id,
    spender: Id,
    amount: nat,
    expires: Option<Expiration>,
)
    requires
        s.inv(),
    ensures
        s.increase_allowance(caller, spender, amount, expires) is Err <==> s.stored_allowance(
            caller,
            spender,
        ).amount + amount > max_amount(),
        s.increase_allowance(caller, spender, amount, expires) matches Ok(next) ==> {
            &&& next.inv()
            &&& next.stored_allowance(caller, spender).amount == s.stored_allowance(
                caller,
                spender,
            ).amount + amount
            &&& next.balances == s.balances
            &&& next.total_supply == s.total_supply
            &&& next.mint == s.mint
        },
{
}

/// Lowering an allowance is never rejected, whatever the amount. What is
/// left is the stored amount less the requested one, or exactly zero if
/// more was asked than was stored: the amount is never negative. Balances
/// and supply are untouched and the ledger stays valid.
pub proof fn lemma_decrease_saturates(
    s: LedgerState,
    caller: Id,
    spender: Id,
    amount: nat,
    expires: Option<Expiration>,
)
    requires
        s.inv(),
    ensures
        s.decrease_allowance(caller, spender, amount, expires) matches Ok(next) && {
            &&& next.inv()
            &&& next.stored_allowance(caller, spender).amount == (if amount
                >= s.stored_allowance(caller, spender).amount {
                0
            } else {
                s.stored_allowance(caller, spender).amount - amount
            })
            &&& amount >= s.stored_allowance(caller, spender).amount
                ==> !next.allowances.dom().contains((caller, spender))
            &&& next.balances == s.balances
            &&& next.total_supply == s.total_supply
            &&& next.mint == s.mint
        },
{
}

/// Granting an allowance where there was none and then lowering it by the
/// same amount leaves the ledger exactly as if neither had been asked.
pub proof fn lemma_allowance_round_trip(
    s: LedgerState,
    caller: Id,
    spender: Id,
    amount: nat,
    granted_until: Option<Expiration>,
    lowered_until: Option<Expiration>,
)
    requires
        amount <= max_amount(),
        !s.allowances.dom().contains((caller, spender)),
    ensures
        s.increase_allowance(caller, spender, amount, granted_until) matches Ok(granted)
            && granted.decrease_allowance(caller, spender, amount, lowered_until) == Ok::<
            LedgerState,
            ContractError,
        >(s),
{
    let granted = s.increase_allowance(caller, spender, amount, granted_until).unwrap();
    let back = granted.allowance_decreased(caller, spender, amount, lowered_until);
    assert(back.allowances =~= s.allowances);
    assert(back =~= s);
}

/// The minter can mint exactly up to the cap, and not one unit beyond it.
pub proof fn lemma_mint_cap_boundary(s: LedgerState, caller: Id, recipient: Id, amount: nat)
    requires
        s.inv(),
        s.may_mint(caller),
        s.cap() is Some,
        amount > 0,
    ensures
        s.total_supply + amount <= s.cap().unwrap() ==> s.mint(caller, recipient, amount) is Ok,
        s.total_supply + amount == s.cap().unwrap() ==> s.mint(caller, recipient, amount).unwrap().total_supply
            == s.cap().unwrap(),
        s.total_supply + amount > s.cap().unwrap() ==> s.mint(caller, recipient, amount) == Err::<
            LedgerState,
            ContractError,
        >(ContractError::CannotExceedCap),
{
}

/// Only the minter can mint: from anyone else, and on a ledger without a
/// mint authority, every mint is rejected as unauthorized.
pub proof fn lemma_only_minter_mints(s: LedgerState, caller: Id, recipient: Id, amount: nat)
    ensures
        s.mint(caller, recipient, amount) is Ok ==> s.may_mint(caller),
        !s.may_mint(caller) ==> s.mint(caller, recipient, amount) == Err::<
            LedgerState,
            ContractError,
        >(ContractError::Unauthorized),
{
}

/// A lapsed allowance counts as zero although its stored amount is still
/// there: it reads as zero, every spend against it is rejected, and the
/// rejected spend leaves the record as it was.
pub proof fn lemma_lapsed_allowance_is_zero(
    s: LedgerState,
    caller: Id,
    owner: Id,
    recipient: Id,
    amount: nat,
    now: Moment,
)
    requires
        s.stored_allowance(owner, caller).expires.expired_at(now),
    ensures
        s.spendable(owner, caller, now) == 0,
        s.burn_from(caller, owner, amount, now) == Err::<LedgerState, ContractError>(
            ContractError::InsufficientAllowance,
        ),
        s.transfer_from(caller, owner, recipient, amount, now) == Err::<
            LedgerState,
            ContractError,
        >(ContractError::InsufficientAllowance),
        s.after(Call { now, caller, request: Request::BurnFrom { owner, amount } }) == s,
        s.after(Call { now, caller, request: Request::TransferFrom { owner, recipient, amount } })
            == s,
{
}

/// Where both the allowance and the owner's funds fall short, the missing
/// permission is what is reported.
pub proof fn lemma_allowance_checked_first(
    s: LedgerState,
    caller: Id,
    owner: Id,
    recipient: Id,
    amount: nat,
    now: Moment,
)
    requires
        s.spendable(owner, caller, now) < amount,
    ensures
        s.burn_from(caller, owner, amount, now) == Err::<LedgerState, ContractError>(
            ContractError::InsufficientAllowance,
        ),
        s.transfer_from(caller, owner, recipient, amount, now) == Err::<
            LedgerState,
            ContractError,
        >(ContractError::InsufficientAllowance),
{
}

/// One delivery keeps the ledger valid and never changes the mint
/// authority, whether it is accepted or rejected.
pub proof fn lemma_step_keeps_inv(s: LedgerState, call: Call)
    requires
        s.inv(),
    ensures
        s.after(call).inv(),
        s.after(call).mint == s.mint,
{
    match call.request {
        Request::Mint { recipient, amount } => {
            lemma_mint_exact(s, call.caller, recipient, amount);
        },
        Request::Burn { amount } => {
            lemma_burn_exact(s, call.caller, amount);
        },
        Request::BurnFrom { owner, amount } => {
            lemma_burn_from_exact(s, call.caller, owner, amount, call.now);
        },
        Request::Transfer { recipient, amount } => {
            lemma_transfers_keep_supply(s, call.caller, call.caller, recipient, amount, call.now);
        },
        Request::TransferFrom { owner, recipient, amount } => {
            lemma_transfers_keep_supply(s, call.caller, owner, recipient, amount, call.now);
        },
        Request::IncreaseAllowance { spender, amount, expires } => {
            lemma_increase_exact(s, call.caller, spender, amount, expires);
        },
        Request::DecreaseAllowance { spender, amount, expires } => {
            lemma_decrease_saturates(s, call.caller, spender, amount, expires);
        },
    }
}

/// Every ledger that can be reached from a valid one, by any series of
/// deliveries, is valid: its total supply is the sum of its balances and
/// is within the cap, and its mint authority is the one it began with.
pub proof fn lemma_reachable_is_valid(s: LedgerState, calls: Seq<Call>)
    requires
        s.inv(),
    ensures
        s.run(calls).inv(),
        s.run(calls).total_supply == total(s.run(calls).balances),
        s.run(calls).cap() matches Some(cap) ==> s.run(calls).total_supply <= cap,
        s.run(calls).mint == s.mint,
    decreases calls.len(),
{
    if calls.len() > 0 {
        lemma_reachable_is_valid(s, calls.drop_last());
        lemma_step_keeps_inv(s.run(calls.drop_last()), calls.last());
    }
}

/// The last expiration that was supplied wins: an adjustment that supplies
/// one replaces the stored one, and one that supplies none keeps it. A
/// record that is created without one never lapses.
pub proof fn lemma_expiration_last_write_wins(
    s: LedgerState,
    caller: Id,
    spender: Id,
    amount: nat,
    expires: Option<Expiration>,
)
    ensures
        s.increase_allowance(caller, spender, amount, expires) matches Ok(next)
            ==> next.stored_allowance(caller, spender).expires == (match expires {
            Some(until) => until,
            None => s.stored_allowance(caller, spender).expires,
        }),
        (s.allowance_decreased(caller, spender, amount, expires).allowances.dom().contains(
            (caller, spender),
        )) ==> s.allowance_decreased(caller, spender, amount, expires).stored_allowance(
            caller,
            spender,
        ).expires == (match expires {
            Some(until) => until,
            None => s.stored_allowance(caller, spender).expires,
        }),
        !s.allowances.dom().contains((caller, spender)) ==> s.stored_allowance(
            caller,
            spender,
        ).expires == Expiration::Never,
{
}

} // verus!
