//! Accounting core of a fungible-token ledger: balances, a bounded total
//! supply and delegated spending rights, with every transition verified.

pub mod allowances;
pub mod balances;
pub mod engine;
pub mod error;
pub mod expiration;
pub mod identity;
pub mod laws;
pub mod ledger;
pub mod model;
pub mod msg;
pub mod table;
pub mod totals;
pub mod validity;

pub use allowances::Grant;
pub use balances::Account;
pub use engine::{exec, query};
pub use error::ContractError;
pub use expiration::{Expiration, Moment};
pub use identity::{get_uaddr, Identity};
pub use ledger::{Ledger, MintAuthority};
pub use msg::{
    AllowanceResponse, BalanceResponse, ExecuteMsg, QueryMsg, QueryResponse, TokenInfoResponse,
};
