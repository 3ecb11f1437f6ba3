//! A token faucet: a contract that stores the account of a fungible-token
//! contract once, and on each claim asks that contract to transfer a fixed
//! amount to the caller.

pub mod faucet;
pub mod instance;
pub mod laws;

pub use faucet::{
    Nep21Faucet, TransferRequest, CLAIM_AMOUNT, TRANSFER_GAS, TRANSFER_METHOD,
};
pub use instance::{FaucetError, FaucetInstance};
