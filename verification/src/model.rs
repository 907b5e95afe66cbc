use crate::error::ContractError;
use crate::expiration::{Expiration, Moment};
use crate::identity::Id;
use crate::totals::{total, value_or_zero};
use vstd::prelude::*;

verus! {

/// The largest amount the ledger can hold: the 128-bit range.
pub open spec fn max_amount() -> nat {
    u128::MAX as nat
}

/// A delegated spending right: how much is left and when it lapses.
pub struct Allowance {
    pub amount: nat,
    pub expires: Expiration,
}

/// Who may create supply, and up to which total.
pub struct MintRule {
    pub minter: Id,
    pub cap: Option<nat>,
}

/// The ledger as a mathematical value.
///
/// `balances` is sparse: a holder without funds has no entry. `allowances`
/// is keyed by owner and spender, in this order.
#[verifier::ext_equal]
pub struct LedgerState {
    pub balances: Map<Id, nat>,
    pub allowances: Map<(Id, Id), Allowance>,
    pub total_supply: nat,
    pub mint: Option<MintRule>,
}

/// A mutating operation with its parameters.
pub enum Request {
    Mint { recipient: Id, amount: nat },
    Burn { amount: nat },
    BurnFrom { owner: Id, amount: nat },
    Transfer { recipient: Id, amount: nat },
    TransferFrom { owner: Id, recipient: Id, amount: nat },
    IncreaseAllowance { spender: Id, amount: nat, expires: Option<Expiration> },
    DecreaseAllowance { spender: Id, amount: nat, expires: Option<Expiration> },
}

/// One delivery of the host: when, from whom, and what.
pub struct Call {
    pub now: Moment,
    pub caller: Id,
    pub request: Request,
}

/// The expiration a record has after an adjustment: the supplied one if
/// any, else the one it had.
pub open spec fn chosen_expiration(supplied: Option<Expiration>, stored: Expiration) -> Expiration {
    match supplied {
        Some(expires) => expires,
        None => stored,
    }
}

impl LedgerState {
    /// The ledger right after creation: nothing held, nothing granted.
    pub open spec fn empty(mint: Option<MintRule>) -> LedgerState {
        LedgerState {
            balances: Map::empty(),
            allowances: Map::empty(),
            total_supply: 0,
            mint,
        }
    }

    /// What a holder owns; zero without an entry.
    pub open spec fn balance_of(self, who: Id) -> nat {
        value_or_zero(self.balances, who)
    }

    /// The balance table with `who` holding exactly `amount`. A zero
    /// balance is stored as absence.
    pub open spec fn balances_with(self, who: Id, amount: nat) -> Map<Id, nat> {
        if amount == 0 {
            self.balances.remove(who)
        } else {
            self.balances.insert(who, amount)
        }
    }

    /// The record stored for a pair, whether lapsed or not; without a
    /// record, zero that never lapses.
    pub open spec fn stored_allowance(self, owner: Id, spender: Id) -> Allowance {
        if self.allowances.dom().contains((owner, spender)) {
            self.allowances[(owner, spender)]
        } else {
            Allowance { amount: 0, expires: Expiration::Never }
        }
    }

    /// Whether the pair has a record that has not lapsed at `now`.
    pub open spec fn has_live_allowance(self, owner: Id, spender: Id, now: Moment) -> bool {
        &&& self.allowances.dom().contains((owner, spender))
        &&& !self.allowances[(owner, spender)].expires.expired_at(now)
    }

    /// What the spender may still move at `now`: the stored amount of a
    /// live record, else zero.
    pub open spec fn spendable(self, owner: Id, spender: Id, now: Moment) -> nat {
        if self.has_live_allowance(owner, spender, now) {
            self.allowances[(owner, spender)].amount
        } else {
            0
        }
    }

    /// The allowance table after the pair's record was reduced to `left`.
    /// A record that reaches zero is removed.
    pub open spec fn allowances_reduced(self, owner: Id, spender: Id, left: Allowance) -> Map<
        (Id, Id),
        Allowance,
    > {
        if left.amount == 0 {
            self.allowances.remove((owner, spender))
        } else {
            self.allowances.insert((owner, spender), left)
        }
    }

    /// The allowance table after the spender used `amount` of a live record.
    pub open spec fn allowances_spent(self, owner: Id, spender: Id, amount: nat) -> Map<
        (Id, Id),
        Allowance,
    > {
        let stored = self.stored_allowance(owner, spender);
        self.allowances_reduced(
            owner,
            spender,
            Allowance { amount: (stored.amount - amount) as nat, expires: stored.expires },
        )
    }

    /// Whether `caller` holds the mint authority.
    pub open spec fn may_mint(self, caller: Id) -> bool {
        self.mint matches Some(rule) && rule.minter == caller
    }

    /// The configured cap, if minting is enabled and bounded.
    pub open spec fn cap(self) -> Option<nat> {
        match self.mint {
            Some(rule) => rule.cap,
            None => None,
        }
    }

    /// Whether adding `amount` to the supply would break the cap.
    pub open spec fn breaks_cap(self, amount: nat) -> bool {
        self.cap() matches Some(cap) && self.total_supply + amount > cap
    }

    /// What holds of every ledger that can be reached: the supply is the
    /// sum of the balances, it respects the cap, and every amount fits the
    /// 128-bit range.
    pub open spec fn inv(self) -> bool {
        &&& self.balances.dom().finite()
        &&& self.allowances.dom().finite()
        &&& forall|who: Id| #[trigger] self.balances.dom().contains(who) ==> self.balances[who] > 0
        &&& self.total_supply == total(self.balances)
        &&& self.total_supply <= max_amount()
        &&& self.cap() matches Some(cap) ==> self.total_supply <= cap <= max_amount()
        &&& forall|pair: (Id, Id)| #[trigger]
            self.allowances.dom().contains(pair) ==> self.allowances[pair].amount <= max_amount()
    }

    /// Adds `amount` to a holder at creation time. No authority is asked
    /// for and a zero amount changes nothing; the cap and the range apply
    /// as in `mint`.
    pub open spec fn seed(self, who: Id, amount: nat) -> Result<LedgerState, ContractError> {
        if self.breaks_cap(amount) {
            Err(ContractError::CannotExceedCap)
        } else if self.total_supply + amount > max_amount() {
            Err(ContractError::Overflow)
        } else {
            Ok(
                LedgerState {
                    balances: self.balances_with(who, self.balance_of(who) + amount),
                    total_supply: self.total_supply + amount,
                    ..self
                },
            )
        }
    }

    /// Seeds the listed balances in order, stopping at the first failure.
    pub open spec fn seed_all(self, items: Seq<(Id, nat)>) -> Result<LedgerState, ContractError>
        decreases items.len(),
    {
        if items.len() == 0 {
            Ok(self)
        } else {
            match self.seed_all(items.drop_last()) {
                Ok(state) => state.seed(items.last().0, items.last().1),
                Err(e) => Err(e),
            }
        }
    }

    /// Creates `amount` for `recipient`.
    ///
    /// Rejected, in this order: `Unauthorized` unless the caller is the
    /// minter; `InvalidZeroAmount` for a zero amount; `CannotExceedCap` if
    /// the new supply would exceed the cap; `Overflow` if, without a cap,
    /// it would leave the 128-bit range.
    pub open spec fn mint(self, caller: Id, recipient: Id, amount: nat) -> Result<
        LedgerState,
        ContractError,
    > {
        if !self.may_mint(caller) {
            Err(ContractError::Unauthorized)
        } else if amount == 0 {
            Err(ContractError::InvalidZeroAmount)
        } else if self.breaks_cap(amount) {
            Err(ContractError::CannotExceedCap)
        } else if self.total_supply + amount > max_amount() {
            Err(ContractError::Overflow)
        } else {
            Ok(
                LedgerState {
                    balances: self.balances_with(recipient, self.balance_of(recipient) + amount),
                    total_supply: self.total_supply + amount,
                    ..self
                },
            )
        }
    }

    /// Destroys `amount` of the caller's own funds.
    ///
    /// Rejected with `InvalidZeroAmount` for a zero amount and with
    /// `InsufficientFunds` if the caller owns less.
    pub open spec fn burn(self, caller: Id, amount: nat) -> Result<LedgerState, ContractError> {
        if amount == 0 {
            Err(ContractError::InvalidZeroAmount)
        } else if self.balance_of(caller) < amount {
            Err(ContractError::InsufficientFunds)
        } else {
            Ok(
                LedgerState {
                    balances: self.balances_with(caller, (self.balance_of(caller) - amount) as nat),
                    total_supply: (self.total_supply - amount) as nat,
                    ..self
                },
            )
        }
    }

    /// Destroys `amount` of `owner`'s funds on the strength of an allowance
    /// granted to the caller.
    ///
    /// Rejected, in this order: `InsufficientAllowance` unless the pair has
    /// a live record of at least `amount`; `InsufficientFunds` if the owner
    /// owns less.
    pub open spec fn burn_from(self, caller: Id, owner: Id, amount: nat, now: Moment) -> Result<
        LedgerState,
        ContractError,
    > {
        if !self.has_live_allowance(owner, caller, now) || self.spendable(owner, caller, now)
            < amount {
            Err(ContractError::InsufficientAllowance)
        } else if self.balance_of(owner) < amount {
            Err(ContractError::InsufficientFunds)
        } else {
            Ok(
                LedgerState {
                    balances: self.balances_with(owner, (self.balance_of(owner) - amount) as nat),
                    allowances: self.allowances_spent(owner, caller, amount),
                    total_supply: (self.total_supply - amount) as nat,
                    ..self
                },
            )
        }
    }

    /// The balance table after `amount` went from one holder to another.
    pub open spec fn balances_moved(self, from: Id, to: Id, amount: nat) -> Map<Id, nat> {
        let debited = LedgerState {
            balances: self.balances_with(from, (self.balance_of(from) - amount) as nat),
            ..self
        };
        debited.balances_with(to, debited.balance_of(to) + amount)
    }

    /// Moves `amount` of the caller's own funds to `recipient`.
    ///
    /// Rejected with `InvalidZeroAmount` for a zero amount and with
    /// `InsufficientFunds` if the caller owns less.
    pub open spec fn transfer(self, caller: Id, recipient: Id, amount: nat) -> Result<
        LedgerState,
        ContractError,
    > {
        if amount == 0 {
            Err(ContractError::InvalidZeroAmount)
        } else if self.balance_of(caller) < amount {
            Err(ContractError::InsufficientFunds)
        } else {
            Ok(LedgerState { balances: self.balances_moved(caller, recipient, amount), ..self })
        }
    }

    /// Moves `amount` of `owner`'s funds to `recipient` on the strength of
    /// an allowance granted to the caller.
    ///
    /// Rejected, in this order: `InsufficientAllowance` unless the pair has
    /// a live record of at least `amount`; `InsufficientFunds` if the owner
    /// owns less.
    pub open spec fn transfer_from(
        self,
        caller: Id,
        owner: Id,
        recipient: Id,
        amount: nat,
        now: Moment,
    ) -> Result<LedgerState, ContractError> {
        if !self.has_live_allowance(owner, caller, now) || self.spendable(owner, caller, now)
            < amount {
            Err(ContractError::InsufficientAllowance)
        } else if self.balance_of(owner) < amount {
            Err(ContractError::InsufficientFunds)
        } else {
            Ok(
                LedgerState {
                    balances: self.balances_moved(owner, recipient, amount),
                    allowances: self.allowances_spent(owner, caller, amount),
                    ..self
                },
            )
        }
    }

    /// Raises what `spender` may move of the caller's funds, creating the
    /// record if there is none. A supplied expiration replaces the stored
    /// one. The stored amount counts even if the record has lapsed.
    ///
    /// Rejected with `Overflow` if the amount would leave the 128-bit range.
    pub open spec fn increase_allowance(
        self,
        caller: Id,
        spender: Id,
        amount: nat,
        expires: Option<Expiration>,
    ) -> Result<LedgerState, ContractError> {
        let stored = self.stored_allowance(caller, spender);
        if stored.amount + amount > max_amount() {
            Err(ContractError::Overflow)
        } else {
            Ok(
                LedgerState {
                    allowances: self.allowances.insert(
                        (caller, spender),
                        Allowance {
                            amount: stored.amount + amount,
                            expires: chosen_expiration(expires, stored.expires),
                        },
                    ),
                    ..self
                },
            )
        }
    }

    /// The ledger after `spender`'s allowance on the caller's funds was
    /// lowered by `amount`, stopping at zero. A record that reaches zero is
    /// removed; else a supplied expiration replaces the stored one.
    pub open spec fn allowance_decreased(
        self,
        caller: Id,
        spender: Id,
        amount: nat,
        expires: Option<Expiration>,
    ) -> LedgerState {
        let stored = self.stored_allowance(caller, spender);
        let left = if amount >= stored.amount {
            0
        } else {
            (stored.amount - amount) as nat
        };
        LedgerState {
            allowances: self.allowances_reduced(
                caller,
                spender,
                Allowance { amount: left, expires: chosen_expiration(expires, stored.expires) },
            ),
            ..self
        }
    }

    /// Lowers an allowance. Never rejected.
    pub open spec fn decrease_allowance(
        self,
        caller: Id,
        spender: Id,
        amount: nat,
        expires: Option<Expiration>,
    ) -> Result<LedgerState, ContractError> {
        Ok(self.allowance_decreased(caller, spender, amount, expires))
    }

    /// The outcome of one delivery: the next ledger, or why it was rejected.
    pub open spec fn step(self, call: Call) -> Result<LedgerState, ContractError> {
        match call.request {
            Request::Mint { recipient, amount } => self.mint(call.caller, recipient, amount),
            Request::Burn { amount } => self.burn(call.caller, amount),
            Request::BurnFrom { owner, amount } => self.burn_from(
                call.caller,
                owner,
                amount,
                call.now,
            ),
            Request::Transfer { recipient, amount } => self.transfer(
                call.caller,
                recipient,
                amount,
            ),
            Request::TransferFrom { owner, recipient, amount } => self.transfer_from(
                call.caller,
                owner,
                recipient,
                amount,
                call.now,
            ),
            Request::IncreaseAllowance { spender, amount, expires } => self.increase_allowance(
                call.caller,
                spender,
                amount,
                expires,
            ),
            Request::DecreaseAllowance { spender, amount, expires } => self.decrease_allowance(
                call.caller,
                spender,
                amount,
                expires,
            ),
        }
    }

    /// The ledger after one delivery: a rejected one changes nothing.
    pub open spec fn after(self, call: Call) -> LedgerState {
        match self.step(call) {
            Ok(next) => next,
            Err(_) => self,
        }
    }

    /// The ledger after a series of deliveries, in order.
    pub open spec fn run(self, calls: Seq<Call>) -> LedgerState
        decreases calls.len(),
    {
        if calls.len() == 0 {
            self
        } else {
            self.run(calls.drop_last()).after(calls.last())
        }
    }
}

} // verus!
