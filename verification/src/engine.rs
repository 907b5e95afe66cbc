use crate::error::ContractError;
use crate::expiration::Moment;
use crate::identity::Identity;
use crate::ledger::Ledger;
use crate::model::{Call, LedgerState};
use crate::msg::{
    AllowanceResponse, BalanceResponse, ExecuteMsg, QueryMsg, QueryResponse, TokenInfoResponse,
};
use vstd::prelude::*;

verus! {

/// The answer that a valid ledger gives to a question at `now`.
pub open spec fn answer_to(state: LedgerState, now: Moment, msg: QueryMsg) -> QueryResponse {
    match msg {
        QueryMsg::Balance { address } => QueryResponse::Balance(
            BalanceResponse { balance: state.balance_of(address@) as u128 },
        ),
        QueryMsg::Allowance { owner, spender } => QueryResponse::Allowance(
            AllowanceResponse {
                allowance: state.spendable(owner@, spender@, now) as u128,
                expires: state.stored_allowance(owner@, spender@).expires,
            },
        ),
        QueryMsg::TokenInfo => QueryResponse::TokenInfo(
            TokenInfoResponse {
                total_supply: state.total_supply as u128,
                cap: match state.cap() {
                    Some(cap) => Some(cap as u128),
                    None => None,
                },
            },
        ),
    }
}

/// Applies one mutating operation on behalf of `sender`, at `now`.
///
/// The operation either takes effect as a whole or is rejected with the
/// reason, and then nothing has changed.
pub fn exec(ledger: &mut Ledger, sender: &Identity, now: &Moment, msg: &ExecuteMsg) -> (done: Result<
    (),
    ContractError,
>)
    requires
        old(ledger).wf(),
    ensures
        final(ledger).wf(),
        match old(ledger)@.step(Call { now: *now, caller: sender@, request: msg@ }) {
            Ok(next) => done is Ok && final(ledger)@ == next,
            Err(e) => done == Err::<(), ContractError>(e) && *final(ledger) == *old(ledger),
        },
{
    match msg {
        ExecuteMsg::Mint { recipient, amount } => ledger.mint(sender, recipient, *amount),
        ExecuteMsg::Burn { amount } => ledger.burn(sender, *amount),
        ExecuteMsg::BurnFrom { owner, amount } => ledger.burn_from(sender, owner, *amount, now),
        ExecuteMsg::Transfer { recipient, amount } => ledger.transfer(sender, recipient, *amount),
        ExecuteMsg::TransferFrom { owner, recipient, amount } => ledger.transfer_from(
            sender,
            owner,
            recipient,
            *amount,
            now,
        ),
        ExecuteMsg::IncreaseAllowance { spender, amount, expires } => ledger.increase_allowance(
            sender,
            spender,
            *amount,
            *expires,
        ),
        ExecuteMsg::DecreaseAllowance { spender, amount, expires } => ledger.decrease_allowance(
            sender,
            spender,
            *amount,
            *expires,
        ),
    }
}

/// Answers one question at `now`. Nothing changes and nothing can fail.
pub fn query(ledger: &Ledger, now: &Moment, msg: &QueryMsg) -> (answer: QueryResponse)
    requires
        ledger.wf(),
    ensures
        answer == answer_to(ledger@, *now, *msg),
{
    match msg {
        QueryMsg::Balance { address } => QueryResponse::Balance(ledger.balance(address)),
        QueryMsg::Allowance { owner, spender } => QueryResponse::Allowance(
            ledger.allowance(owner, spender, now),
        ),
        QueryMsg::TokenInfo => QueryResponse::TokenInfo(ledger.token_info()),
    }
}

} // verus!
