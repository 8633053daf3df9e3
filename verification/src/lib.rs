//! Verified core of a staking contract.
//!
//! A user locks a fungible token, receives the same amount of a derivative
//! token in exchange, can redeem it later and collects a time-proportional
//! reward. This crate holds the rules of that ledger: the position
//! arithmetic, the decision every entry point takes and the token movements
//! it asks for. Storage, authorization and the token contracts themselves
//! belong to the host that runs the contract; the library is handed their
//! answers as plain values.

pub mod error;
pub mod reward;
pub mod stake;
pub mod transfer;
pub mod entry;
pub mod contract;
pub mod contract_interface;
pub mod laws;

pub use crate::contract::{Address, ChrysalisContract, Config};
pub use crate::contract_interface::ChrysalisContractTrait;
pub use crate::entry::{Host, Receipt};
pub use crate::error::Error;
pub use crate::stake::Stake;
pub use crate::transfer::{Party, Token, Transfer};
