pub mod account;
pub mod amounts;
pub mod engine;
pub mod ledger;
pub mod model;
pub mod tally;
pub mod theorems;
pub mod types;

pub use crate::account::AccountId;
pub use crate::engine::SsalCommods;
pub use crate::ledger::TokenLedger;
pub use crate::types::{
    Approval, Balance, BlockNumber, CommodityContract, ContractBought, ContractFinalized,
    ContractId, Error, EscrowContract, Event, Grams, NewContract, Transfer,
};
