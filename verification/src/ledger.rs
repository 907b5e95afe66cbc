use crate::allowances::{AllowanceTable, Grant};
use crate::balances::{rows_pairs, Account, BalanceTable};
use crate::error::ContractError;
use crate::expiration::{Expiration, Moment};
use crate::identity::{Id, Identity};
use crate::model::{Allowance, LedgerState, MintRule};
use crate::msg::{AllowanceResponse, BalanceResponse, TokenInfoResponse};
use crate::table::{distinct_keys, rows_map};
use crate::totals::{lemma_total_bounds, total};
use crate::validity::{
    lemma_allowances_spent, lemma_balances_moved, lemma_balances_with, lemma_empty_is_valid,
    lemma_seed_keeps_inv,
};
use vstd::prelude::*;

verus! {

/// The single identity that may create supply, with the optional cap on
/// the total. It is fixed when the ledger is created.
#[derive(Debug, PartialEq, Eq)]
pub struct MintAuthority {
    pub minter: Identity,
    pub cap: Option<u128>,
}

impl Clone for MintAuthority {
    fn clone(&self) -> (copy: Self)
        ensures
            copy == *self,
    {
        MintAuthority { minter: self.minter.clone(), cap: self.cap }
    }
}

/// An optional amount as a mathematical value.
pub open spec fn amount_option(amount: Option<u128>) -> Option<nat> {
    match amount {
        Some(value) => Some(value as nat),
        None => None,
    }
}

/// An optional mint authority as a mathematical value.
pub open spec fn mint_rule(mint: Option<MintAuthority>) -> Option<MintRule> {
    match mint {
        Some(authority) => Some(
            MintRule { minter: authority.minter@, cap: amount_option(authority.cap) },
        ),
        None => None,
    }
}

/// The ledger: who owns what, who may spend whose funds, how much is in
/// circulation and who may create more.
#[derive(Debug)]
pub struct Ledger {
    balances: BalanceTable,
    allowances: AllowanceTable,
    total_supply: u128,
    mint: Option<MintAuthority>,
}

impl View for Ledger {
    type V = LedgerState;

    closed spec fn view(&self) -> LedgerState {
        LedgerState {
            balances: self.balances@,
            allowances: self.allowances@,
            total_supply: self.total_supply as nat,
            mint: mint_rule(self.mint),
        }
    }
}

proof fn lemma_seed_all_failure_stays(s: LedgerState, items: Seq<(Id, nat)>, n: int)
    requires
        0 <= n <= items.len(),
        s.seed_all(items.take(n)) is Err,
    ensures
        s.seed_all(items) == s.seed_all(items.take(n)),
    decreases items.len() - n,
{
    if n < items.len() {
        assert(items.take(n + 1).drop_last() =~= items.take(n));
        lemma_seed_all_failure_stays(s, items, n + 1);
    } else {
        assert(items.take(n) =~= items);
    }
}

impl Ledger {
    /// The tables are kept as they should be: no holder and no pair of
    /// owner and spender has two rows.
    pub closed spec fn well_kept(&self) -> bool {
        self.balances.wf() && self.allowances.wf()
    }

    /// The ledger is valid: its tables are well kept, its supply is the
    /// sum of its balances and respects the cap.
    pub open spec fn wf(&self) -> bool {
        self.well_kept() && self@.inv()
    }

    /// A ledger on which nothing is held and nothing is granted.
    pub fn new(mint: Option<MintAuthority>) -> (ledger: Ledger)
        ensures
            ledger.wf(),
            ledger@ == LedgerState::empty(mint_rule(mint)),
    {
        proof {
            lemma_empty_is_valid(mint_rule(mint));
        }
        Ledger {
            balances: BalanceTable::new(),
            allowances: AllowanceTable::new(),
            total_supply: 0,
            mint,
        }
    }

    /// A ledger with the given balances seeded, in order. A holder that is
    /// listed twice gets the sum; a zero amount changes nothing.
    ///
    /// Fails with `CannotExceedCap` as soon as the supply would exceed the
    /// cap, and with `Overflow` as soon as, without a cap, it would leave
    /// the 128-bit range.
    pub fn instantiate(mint: Option<MintAuthority>, initial_balances: &Vec<Account>) -> (made:
        Result<Ledger, ContractError>)
        ensures
            match LedgerState::empty(mint_rule(mint)).seed_all(rows_pairs(initial_balances@)) {
                Ok(state) => made matches Ok(ledger) && ledger.wf() && ledger@ == state,
                Err(e) => made matches Err(why) && why == e,
            },
    {
        let mut ledger = Ledger::new(mint);
        let ghost start = ledger@;
        let ghost items = rows_pairs(initial_balances@);
        let mut i: usize = 0;
        while i < initial_balances.len()
            invariant
                i <= initial_balances.len(),
                start == LedgerState::empty(mint_rule(mint)),
                items == rows_pairs(initial_balances@),
                ledger.wf(),
                start.seed_all(items.take(i as int)) == Ok::<LedgerState, ContractError>(ledger@),
            decreases initial_balances.len() - i,
        {
            proof {
                assert(items.take(i + 1).drop_last() =~= items.take(i as int));
            }
            match ledger.seed(&initial_balances[i].holder, initial_balances[i].amount) {
                Ok(()) => {},
                Err(e) => {
                    proof {
                        lemma_seed_all_failure_stays(start, items, i + 1);
                    }
                    return Err(e);
                },
            }
            i += 1;
        }
        assert(items.take(i as int) =~= items);
        Ok(ledger)
    }

    /// Adds `amount` to `who` and to the supply, within the cap and the
    /// 128-bit range.
    fn seed(&mut self, who: &Identity, amount: u128) -> (done: Result<(), ContractError>)
        requires
            old(self).wf(),
        ensures
            final(self).wf(),
            match old(self)@.seed(who@, amount as nat) {
                Ok(next) => done is Ok && final(self)@ == next,
                Err(e) => done == Err::<(), ContractError>(e) && *final(self) == *old(self),
            },
    {
        let cap = match &self.mint {
            Some(authority) => authority.cap,
            None => None,
        };
        let supply = match self.total_supply.checked_add(amount) {
            Some(sum) => sum,
            None => {
                if cap.is_some() {
                    return Err(ContractError::CannotExceedCap);
                } else {
                    return Err(ContractError::Overflow);
                }
            },
        };
        if let Some(limit) = cap {
            if supply > limit {
                return Err(ContractError::CannotExceedCap);
            }
        }
        proof {
            lemma_total_bounds(self@.balances, who@);
            lemma_seed_keeps_inv(self@, who@, amount as nat);
        }
        let balance = self.balances.get(who) + amount;
        self.balances.set(who, balance);
        self.total_supply = supply;
        Ok(())
    }

    /// Creates `amount` for `recipient`, on behalf of `caller`.
    ///
    /// Fails, in this order: with `Unauthorized` unless the caller is the
    /// minter; with `InvalidZeroAmount` for a zero amount; with
    /// `CannotExceedCap` if the new supply would exceed the cap; with
    /// `Overflow` if, without a cap, it would leave the 128-bit range. A
    /// failure changes nothing; success raises the supply by exactly
    /// `amount`.
    pub fn mint(&mut self, caller: &Identity, recipient: &Identity, amount: u128) -> (done: Result<
        (),
        ContractError,
    >)
        requires
            old(self).wf(),
        ensures
            final(self).wf(),
            match old(self)@.mint(caller@, recipient@, amount as nat) {
                Ok(next) => done is Ok && final(self)@ == next,
                Err(e) => done == Err::<(), ContractError>(e) && *final(self) == *old(self),
            },
            done is Ok ==> final(self)@.total_supply == old(self)@.total_supply + amount,
    {
        let allowed = match &self.mint {
            Some(authority) => authority.minter.same(caller),
            None => false,
        };
        if !allowed {
            return Err(ContractError::Unauthorized);
        }
        if amount == 0 {
            return Err(ContractError::InvalidZeroAmount);
        }
        self.seed(recipient, amount)
    }

    /// Destroys `amount` of the caller's own funds.
    ///
    /// Fails with `InvalidZeroAmount` for a zero amount and with
    /// `InsufficientFunds` if the caller owns less. A failure changes
    /// nothing; success lowers the supply by exactly `amount`.
    pub fn burn(&mut self, caller: &Identity, amount: u128) -> (done: Result<(), ContractError>)
        requires
            old(self).wf(),
        ensures
            final(self).wf(),
            match old(self)@.burn(caller@, amount as nat) {
                Ok(next) => done is Ok && final(self)@ == next,
                Err(e) => done == Err::<(), ContractError>(e) && *final(self) == *old(self),
            },
            done is Ok ==> final(self)@.total_supply == old(self)@.total_supply - amount,
    {
        if amount == 0 {
            return Err(ContractError::InvalidZeroAmount);
        }
        let balance = self.balances.get(caller);
        if balance < amount {
            return Err(ContractError::InsufficientFunds);
        }
        proof {
            lemma_total_bounds(self@.balances, caller@);
            lemma_balances_with(self@, caller@, (balance - amount) as nat);
        }
        self.balances.set(caller, balance - amount);
        self.total_supply = self.total_supply - amount;
        Ok(())
    }

    /// The record that lets `spender` move `amount` of `owner`'s funds at
    /// `now`: it exists, has not lapsed and covers the amount.
    fn covering_allowance(
        &self,
        owner: &Identity,
        spender: &Identity,
        amount: u128,
        now: &Moment,
    ) -> (found: Option<(u128, Expiration)>)
        requires
            self.wf(),
        ensures
            found is Some <==> self@.has_live_allowance(owner@, spender@, *now) && amount
                <= self@.spendable(owner@, spender@, *now),
            found matches Some(record) ==> self@.allowances[(owner@, spender@)] == (Allowance {
                amount: record.0 as nat,
                expires: record.1,
            }),
    {
        match self.allowances.get(owner, spender) {
            Some(record) => {
                if record.1.is_expired(now) || record.0 < amount {
                    None
                } else {
                    Some(record)
                }
            },
            None => None,
        }
    }

    /// Takes `amount` out of a record that covers it, removing the record
    /// if nothing is left.
    fn spend_allowance(
        &mut self,
        owner: &Identity,
        spender: &Identity,
        record: (u128, Expiration),
        amount: u128,
    )
        requires
            old(self).well_kept(),
            old(self)@.allowances.dom().contains((owner@, spender@)),
            old(self)@.allowances[(owner@, spender@)] == (Allowance {
                amount: record.0 as nat,
                expires: record.1,
            }),
            amount <= record.0,
        ensures
            final(self).well_kept(),
            final(self)@ == (LedgerState {
                allowances: old(self)@.allowances_spent(owner@, spender@, amount as nat),
                ..old(self)@
            }),
    {
        if record.0 == amount {
            self.allowances.remove(owner, spender);
        } else {
            self.allowances.put(owner, spender, record.0 - amount, record.1);
        }
    }

    /// Destroys `amount` of `owner`'s funds, on the strength of an
    /// allowance that `owner` granted to `caller`.
    ///
    /// Fails, in this order: with `InsufficientAllowance` unless the pair
    /// has a record that has not lapsed at `now` and covers the amount;
    /// with `InsufficientFunds` if the owner owns less. A failure changes
    /// nothing; success lowers the supply by exactly `amount`.
    pub fn burn_from(&mut self, caller: &Identity, owner: &Identity, amount: u128, now: &Moment) -> (done:
        Result<(), ContractError>)
        requires
            old(self).wf(),
        ensures
            final(self).wf(),
            match old(self)@.burn_from(caller@, owner@, amount as nat, *now) {
                Ok(next) => done is Ok && final(self)@ == next,
                Err(e) => done == Err::<(), ContractError>(e) && *final(self) == *old(self),
            },
            done is Ok ==> final(self)@.total_supply == old(self)@.total_supply - amount,
    {
        let record = match self.covering_allowance(owner, caller, amount, now) {
            Some(record) => record,
            None => {
                return Err(ContractError::InsufficientAllowance);
            },
        };
        let balance = self.balances.get(owner);
        if balance < amount {
            return Err(ContractError::InsufficientFunds);
        }
        proof {
            lemma_total_bounds(self@.balances, owner@);
            lemma_balances_with(self@, owner@, (balance - amount) as nat);
            lemma_allowances_spent(self@, owner@, caller@, amount as nat);
        }
        self.spend_allowance(owner, caller, record, amount);
        self.balances.set(owner, balance - amount);
        self.total_supply = self.total_supply - amount;
        Ok(())
    }

    /// Moves `amount` that `from` is known to own over to `to`.
    fn move_funds(&mut self, from: &Identity, to: &Identity, amount: u128)
        requires
            old(self).well_kept(),
            old(self)@.balances.dom().finite(),
            forall|k: Id| #[trigger]
                old(self)@.balances.dom().contains(k) ==> old(self)@.balances[k] > 0,
            total(old(self)@.balances) <= u128::MAX,
            amount <= old(self)@.balance_of(from@),
        ensures
            final(self).well_kept(),
            final(self)@ == (LedgerState {
                balances: old(self)@.balances_moved(from@, to@, amount as nat),
                ..old(self)@
            }),
    {
        let ghost before = self@;
        let left = self.balances.get(from) - amount;
        self.balances.set(from, left);
        proof {
            lemma_balances_with(before, from@, left as nat);
            lemma_total_bounds(self@.balances, to@);
        }
        let raised = self.balances.get(to) + amount;
        self.balances.set(to, raised);
    }

    /// Moves `amount` of the caller's own funds to `recipient`. The total
    /// supply is never changed.
    ///
    /// Fails with `InvalidZeroAmount` for a zero amount and with
    /// `InsufficientFunds` if the caller owns less. A failure changes
    /// nothing.
    pub fn transfer(&mut self, caller: &Identity, recipient: &Identity, amount: u128) -> (done:
        Result<(), ContractError>)
        requires
            old(self).wf(),
        ensures
            final(self).wf(),
            final(self)@.total_supply == old(self)@.total_supply,
            match old(self)@.transfer(caller@, recipient@, amount as nat) {
                Ok(next) => done is Ok && final(self)@ == next,
                Err(e) => done == Err::<(), ContractError>(e) && *final(self) == *old(self),
            },
    {
        if amount == 0 {
            return Err(ContractError::InvalidZeroAmount);
        }
        if self.balances.get(caller) < amount {
            return Err(ContractError::InsufficientFunds);
        }
        proof {
            lemma_balances_moved(self@, caller@, recipient@, amount as nat);
        }
        self.move_funds(caller, recipient, amount);
        Ok(())
    }

    /// Moves `amount` of `owner`'s funds to `recipient`, on the strength of
    /// an allowance that `owner` granted to `caller`. The total supply is
    /// never changed.
    ///
    /// Fails, in this order: with `InsufficientAllowance` unless the pair
    /// has a record that has not lapsed at `now` and covers the amount;
    /// with `InsufficientFunds` if the owner owns less. A failure changes
    /// nothing.
    pub fn transfer_from(
        &mut self,
        caller: &Identity,
        owner: &Identity,
        recipient: &Identity,
        amount: u128,
        now: &Moment,
    ) -> (done: Result<(), ContractError>)
        requires
            old(self).wf(),
        ensures
            final(self).wf(),
            final(self)@.total_supply == old(self)@.total_supply,
            match old(self)@.transfer_from(caller@, owner@, recipient@, amount as nat, *now) {
                Ok(next) => done is Ok && final(self)@ == next,
                Err(e) => done == Err::<(), ContractError>(e) && *final(self) == *old(self),
            },
    {
        let record = match self.covering_allowance(owner, caller, amount, now) {
            Some(record) => record,
            None => {
                return Err(ContractError::InsufficientAllowance);
            },
        };
        if self.balances.get(owner) < amount {
            return Err(ContractError::InsufficientFunds);
        }
        proof {
            lemma_balances_moved(self@, owner@, recipient@, amount as nat);
            lemma_allowances_spent(self@, owner@, caller@, amount as nat);
        }
        self.spend_allowance(owner, caller, record, amount);
        self.move_funds(owner, recipient, amount);
        Ok(())
    }

    /// The amount and the expiration stored for a pair; without a record,
    /// zero that never lapses.
    fn stored(&self, owner: &Identity, spender: &Identity) -> (record: (u128, Expiration))
        requires
            self.wf(),
        ensures
            self@.stored_allowance(owner@, spender@) == (Allowance {
                amount: record.0 as nat,
                expires: record.1,
            }),
    {
        match self.allowances.get(owner, spender) {
            Some(record) => record,
            None => (0, Expiration::Never),
        }
    }

    /// Lets `spender` move `amount` more of the caller's funds, creating
    /// the record if there is none. A supplied expiration replaces the
    /// stored one; without one the stored one stays, and a new record
    /// never lapses. The stored amount counts even if the record has
    /// lapsed.
    ///
    /// Fails with `Overflow` if the amount would leave the 128-bit range.
    /// A failure changes nothing.
    pub fn increase_allowance(
        &mut self,
        caller: &Identity,
        spender: &Identity,
        amount: u128,
        expires: Option<Expiration>,
    ) -> (done: Result<(), ContractError>)
        requires
            old(self).wf(),
        ensures
            final(self).wf(),
            match old(self)@.increase_allowance(caller@, spender@, amount as nat, expires) {
                Ok(next) => done is Ok && final(self)@ == next,
                Err(e) => done == Err::<(), ContractError>(e) && *final(self) == *old(self),
            },
    {
        let record = self.stored(caller, spender);
        let raised = match record.0.checked_add(amount) {
            Some(sum) => sum,
            None => {
                return Err(ContractError::Overflow);
            },
        };
        let until = match expires {
            Some(supplied) => supplied,
            None => record.1,
        };
        self.allowances.put(caller, spender, raised, until);
        Ok(())
    }

    /// Lets `spender` move `amount` less of the caller's funds, stopping
    /// at zero: asking for more than is stored is no error. A record that
    /// reaches zero is removed; else a supplied expiration replaces the
    /// stored one.
    ///
    /// Never fails.
    pub fn decrease_allowance(
        &mut self,
        caller: &Identity,
        spender: &Identity,
        amount: u128,
        expires: Option<Expiration>,
    ) -> (done: Result<(), ContractError>)
        requires
            old(self).wf(),
        ensures
            final(self).wf(),
            done is Ok,
            final(self)@ == old(self)@.allowance_decreased(
                caller@,
                spender@,
                amount as nat,
                expires,
            ),
    {
        let record = self.stored(caller, spender);
        let left = record.0.saturating_sub(amount);
        if left == 0 {
            self.allowances.remove(caller, spender);
        } else {
            let until = match expires {
                Some(supplied) => supplied,
                None => record.1,
            };
            self.allowances.put(caller, spender, left, until);
        }
        Ok(())
    }

    /// What `address` owns; zero for a holder the ledger has never seen.
    pub fn balance(&self, address: &Identity) -> (response: BalanceResponse)
        requires
            self.wf(),
        ensures
            response.balance == self@.balance_of(address@),
    {
        BalanceResponse { balance: self.balances.get(address) }
    }

    /// What `spender` may still move of `owner`'s funds at `now`: the
    /// stored amount of a record that has not lapsed, else zero. The
    /// expiration is the stored one, lapsed or not; without a record it is
    /// `Never`.
    pub fn allowance(&self, owner: &Identity, spender: &Identity, now: &Moment) -> (response:
        AllowanceResponse)
        requires
            self.wf(),
        ensures
            response.allowance == self@.spendable(owner@, spender@, *now),
            response.expires == self@.stored_allowance(owner@, spender@).expires,
    {
        match self.allowances.get(owner, spender) {
            Some(record) => {
                if record.1.is_expired(now) {
                    AllowanceResponse { allowance: 0, expires: record.1 }
                } else {
                    AllowanceResponse { allowance: record.0, expires: record.1 }
                }
            },
            None => AllowanceResponse { allowance: 0, expires: Expiration::Never },
        }
    }

    /// The supply in circulation and its cap, if there is one.
    pub fn token_info(&self) -> (response: TokenInfoResponse)
        requires
            self.wf(),
        ensures
            response.total_supply == self@.total_supply,
            amount_option(response.cap) == self@.cap(),
    {
        let cap = match &self.mint {
            Some(authority) => authority.cap,
            None => None,
        };
        TokenInfoResponse { total_supply: self.total_supply, cap }
    }

    /// Who may create supply, if anyone.
    pub fn mint_authority(&self) -> (mint: Option<MintAuthority>)
        ensures
            mint_rule(mint) == self@.mint,
    {
        match &self.mint {
            Some(authority) => Some(authority.clone()),
            None => None,
        }
    }

    /// Every holder with what it owns, each holder once, in no particular
    /// order.
    pub fn accounts(&self) -> (list: Vec<Account>)
        requires
            self.wf(),
        ensures
            distinct_keys(list@),
            rows_map(list@) == self@.balances,
    {
        self.balances.accounts()
    }

    /// Every allowance record with its owner and spender, each pair once,
    /// in no particular order.
    pub fn grants(&self) -> (list: Vec<Grant>)
        requires
            self.wf(),
        ensures
            distinct_keys(list@),
            rows_map(list@) == self@.allowances,
    {
        self.allowances.grants()
    }
}

} // verus!
