//! Escrow and fee-settlement engine: fee arithmetic, account gates, the escrow
//! state machine and the one-shot receipt flows, each stated as a contract.

pub mod account;
pub mod address;
pub mod codec;
pub mod config;
pub mod error;
pub mod fee;
pub mod instruction;
pub mod key;
pub mod processor;
pub mod state;
pub mod transfer;

pub use address::{
    find_deposit_program_address, find_escrow_program_address, find_program_authority,
    find_withdrawal_program_address, PREFIX,
};
