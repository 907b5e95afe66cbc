use crate::expiration::Moment;
use crate::identity::Id;
use crate::model::{max_amount, LedgerState, MintRule};
use crate::totals::{lemma_total_drop, lemma_total_empty, lemma_total_insert, total, value_or_zero};
use vstd::prelude::*;

verus! {

/// A ledger that was just created is valid, whatever its mint authority,
/// as long as a cap fits the 128-bit range.
pub proof fn lemma_empty_is_valid(mint: Option<MintRule>)
    requires
        mint matches Some(rule) ==> (rule.cap matches Some(cap) ==> cap <= max_amount()),
    ensures
        LedgerState::empty(mint).inv(),
{
    lemma_total_empty::<Id>();
}

/// Setting one holder's balance keeps the table sparse and finite, moves
/// the sum by the difference, and touches no other holder.
pub proof fn lemma_balances_with(s: LedgerState, who: Id, amount: nat)
    requires
        s.balances.dom().finite(),
        forall|k: Id| #[trigger] s.balances.dom().contains(k) ==> s.balances[k] > 0,
    ensures
        s.balances_with(who, amount).dom().finite(),
        forall|k: Id| #[trigger]
            s.balances_with(who, amount).dom().contains(k) ==> s.balances_with(who, amount)[k] > 0,
        total(s.balances_with(who, amount)) == total(s.balances) - s.balance_of(who) + amount,
        value_or_zero(s.balances_with(who, amount), who) == amount,
        forall|k: Id|
            k != who ==> value_or_zero(s.balances_with(who, amount), k) == #[trigger] value_or_zero(
                s.balances,
                k,
            ),
{
    if amount == 0 {
        lemma_total_drop(s.balances, who);
    } else {
        lemma_total_insert(s.balances, who, amount);
    }
}

/// Moving an amount between two holders keeps the table sparse and finite
/// and leaves the sum as it was.
pub proof fn lemma_balances_moved(s: LedgerState, from: Id, to: Id, amount: nat)
    requires
        s.balances.dom().finite(),
        forall|k: Id| #[trigger] s.balances.dom().contains(k) ==> s.balances[k] > 0,
        amount <= s.balance_of(from),
    ensures
        s.balances_moved(from, to, amount).dom().finite(),
        forall|k: Id| #[trigger]
            s.balances_moved(from, to, amount).dom().contains(k) ==> s.balances_moved(
                from,
                to,
                amount,
            )[k] > 0,
        total(s.balances_moved(from, to, amount)) == total(s.balances),
        from != to ==> value_or_zero(s.balances_moved(from, to, amount), from) == s.balance_of(from)
            - amount,
        from != to ==> value_or_zero(s.balances_moved(from, to, amount), to) == s.balance_of(to)
            + amount,
        from == to ==> value_or_zero(s.balances_moved(from, to, amount), from) == s.balance_of(
            from,
        ),
        forall|k: Id|
            k != from && k != to ==> value_or_zero(s.balances_moved(from, to, amount), k)
                == #[trigger] value_or_zero(s.balances, k),
{
    let left = (s.balance_of(from) - amount) as nat;
    lemma_balances_with(s, from, left);
    let debited = LedgerState { balances: s.balances_with(from, left), ..s };
    assert(value_or_zero(debited.balances, to) == if to == from {
        left
    } else {
        value_or_zero(s.balances, to)
    });
    lemma_balances_with(debited, to, debited.balance_of(to) + amount);
    assert forall|k: Id| k != from && k != to implies value_or_zero(
        s.balances_moved(from, to, amount),
        k,
    ) == #[trigger] value_or_zero(s.balances, k) by {
        assert(value_or_zero(debited.balances, k) == value_or_zero(s.balances, k));
    }
}

/// Spending from a live record that covers the amount keeps the allowance
/// table finite and within range, lowers that record by the amount and
/// touches no other record.
pub proof fn lemma_allowances_spent(s: LedgerState, owner: Id, spender: Id, amount: nat)
    requires
        s.inv(),
        s.allowances.dom().contains((owner, spender)),
        amount <= s.allowances[(owner, spender)].amount,
    ensures
        s.allowances_spent(owner, spender, amount).dom().finite(),
        forall|pair: (Id, Id)| #[trigger]
            s.allowances_spent(owner, spender, amount).dom().contains(pair)
                ==> s.allowances_spent(owner, spender, amount)[pair].amount <= max_amount(),
        (LedgerState {
            allowances: s.allowances_spent(owner, spender, amount),
            ..s
        }).stored_allowance(owner, spender).amount == s.stored_allowance(owner, spender).amount
            - amount,
        forall|pair: (Id, Id)|
            pair != (owner, spender) ==> (s.allowances_spent(owner, spender, amount).dom().contains(
                pair,
            ) <==> #[trigger] s.allowances.dom().contains(pair)),
        forall|pair: (Id, Id)|
            pair != (owner, spender) && #[trigger] s.allowances.dom().contains(pair)
                ==> s.allowances_spent(owner, spender, amount)[pair] == s.allowances[pair],
{
}

/// Seeding a balance at creation keeps the ledger valid.
pub proof fn lemma_seed_keeps_inv(s: LedgerState, who: Id, amount: nat)
    requires
        s.inv(),
    ensures
        s.seed(who, amount) matches Ok(next) ==> next.inv() && next.mint == s.mint,
{
    lemma_balances_with(s, who, s.balance_of(who) + amount);
}

/// Seeding a list of balances at creation keeps the ledger valid.
pub proof fn lemma_seed_all_keeps_inv(s: LedgerState, items: Seq<(Id, nat)>)
    requires
        s.inv(),
    ensures
        s.seed_all(items) matches Ok(next) ==> next.inv() && next.mint == s.mint,
    decreases items.len(),
{
    if items.len() > 0 {
        lemma_seed_all_keeps_inv(s, items.drop_last());
        if let Ok(state) = s.seed_all(items.drop_last()) {
            lemma_seed_keeps_inv(state, items.last().0, items.last().1);
        }
    }
}

} // verus!
