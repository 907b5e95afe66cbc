use crate::expiration::Expiration;
use crate::identity::Identity;
use crate::model::Request;
use vstd::prelude::*;

verus! {

/// A mutating operation, as the host hands it over. The caller is not part
/// of the message: the host resolves it and passes it alongside.
#[derive(Debug, PartialEq, Eq)]
pub enum ExecuteMsg {
    Mint { recipient: Identity, amount: u128 },
    Burn { amount: u128 },
    BurnFrom { owner: Identity, amount: u128 },
    Transfer { recipient: Identity, amount: u128 },
    TransferFrom { owner: Identity, recipient: Identity, amount: u128 },
    IncreaseAllowance { spender: Identity, amount: u128, expires: Option<Expiration> },
    DecreaseAllowance { spender: Identity, amount: u128, expires: Option<Expiration> },
}

impl View for ExecuteMsg {
    type V = Request;

    open spec fn view(&self) -> Request {
        match *self {
            ExecuteMsg::Mint { recipient, amount } => Request::Mint {
                recipient: recipient@,
                amount: amount as nat,
            },
            ExecuteMsg::Burn { amount } => Request::Burn { amount: amount as nat },
            ExecuteMsg::BurnFrom { owner, amount } => Request::BurnFrom {
                owner: owner@,
                amount: amount as nat,
            },
            ExecuteMsg::Transfer { recipient, amount } => Request::Transfer {
                recipient: recipient@,
                amount: amount as nat,
            },
            ExecuteMsg::TransferFrom { owner, recipient, amount } => Request::TransferFrom {
                owner: owner@,
                recipient: recipient@,
                amount: amount as nat,
            },
            ExecuteMsg::IncreaseAllowance { spender, amount, expires } => Request::IncreaseAllowance {
                spender: spender@,
                amount: amount as nat,
                expires,
            },
            ExecuteMsg::DecreaseAllowance { spender, amount, expires } => Request::DecreaseAllowance {
                spender: spender@,
                amount: amount as nat,
                expires,
            },
        }
    }
}

impl Clone for ExecuteMsg {
    fn clone(&self) -> (copy: Self)
        ensures
            copy == *self,
    {
        match self {
            ExecuteMsg::Mint { recipient, amount } => ExecuteMsg::Mint {
                recipient: recipient.clone(),
                amount: *amount,
            },
            ExecuteMsg::Burn { amount } => ExecuteMsg::Burn { amount: *amount },
            ExecuteMsg::BurnFrom { owner, amount } => ExecuteMsg::BurnFrom {
                owner: owner.clone(),
                amount: *amount,
            },
            ExecuteMsg::Transfer { recipient, amount } => ExecuteMsg::Transfer {
                recipient: recipient.clone(),
                amount: *amount,
            },
            ExecuteMsg::TransferFrom { owner, recipient, amount } => ExecuteMsg::TransferFrom {
                owner: owner.clone(),
                recipient: recipient.clone(),
                amount: *amount,
            },
            ExecuteMsg::IncreaseAllowance { spender, amount, expires } => {
                ExecuteMsg::IncreaseAllowance {
                    spender: spender.clone(),
                    amount: *amount,
                    expires: *expires,
                }
            },
            ExecuteMsg::DecreaseAllowance { spender, amount, expires } => {
                ExecuteMsg::DecreaseAllowance {
                    spender: spender.clone(),
                    amount: *amount,
                    expires: *expires,
                }
            },
        }
    }
}

/// A read-only question.
#[derive(Debug, PartialEq, Eq)]
pub enum QueryMsg {
    Balance { address: Identity },
    Allowance { owner: Identity, spender: Identity },
    TokenInfo,
}

impl Clone for QueryMsg {
    fn clone(&self) -> (copy: Self)
        ensures
            copy == *self,
    {
        match self {
            QueryMsg::Balance { address } => QueryMsg::Balance { address: address.clone() },
            QueryMsg::Allowance { owner, spender } => QueryMsg::Allowance {
                owner: owner.clone(),
                spender: spender.clone(),
            },
            QueryMsg::TokenInfo => QueryMsg::TokenInfo,
        }
    }
}

/// What a holder owns.
#[derive(Clone, Copy, Debug, PartialEq, Eq, Structural)]
pub struct BalanceResponse {
    pub balance: u128,
}

/// What a spender may still move, and the expiration that is stored for
/// the pair, lapsed or not.
#[derive(Clone, Copy, Debug, PartialEq, Eq, Structural)]
pub struct AllowanceResponse {
    pub allowance: u128,
    pub expires: Expiration,
}

/// The supply in circulation and its cap, if there is one.
#[derive(Clone, Copy, Debug, PartialEq, Eq, Structural)]
pub struct TokenInfoResponse {
    pub total_supply: u128,
    pub cap: Option<u128>,
}

/// The answer to a question, of the kind that the question asks for.
#[derive(Clone, Copy, Debug, PartialEq, Eq, Structural)]
pub enum QueryResponse {
    Balance(BalanceResponse),
    Allowance(AllowanceResponse),
    TokenInfo(TokenInfoResponse),
}

impl QueryResponse {
    /// The answer to a balance question; `None` for any other answer.
    pub fn balance(&self) -> (answer: Option<BalanceResponse>)
        ensures
            answer == match *self {
                QueryResponse::Balance(response) => Some(response),
                _ => None,
            },
    {
        match self {
            QueryResponse::Balance(response) => Some(*response),
            _ => None,
        }
    }

    /// The answer to an allowance question; `None` for any other answer.
    pub fn allowance(&self) -> (answer: Option<AllowanceResponse>)
        ensures
            answer == match *self {
                QueryResponse::Allowance(response) => Some(response),
                _ => None,
            },
    {
        match self {
            QueryResponse::Allowance(response) => Some(*response),
            _ => None,
        }
    }

    /// The answer to a token question; `None` for any other answer.
    pub fn token_info(&self) -> (answer: Option<TokenInfoResponse>)
        ensures
            answer == match *self {
                QueryResponse::TokenInfo(response) => Some(response),
                _ => None,
            },
    {
        match self {
            QueryResponse::TokenInfo(response) => Some(*response),
            _ => None,
        }
    }
}

} // verus!
