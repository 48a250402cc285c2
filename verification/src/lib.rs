//! A verified model of a single ledger instruction that creates a new
//! fungible token mint and issues an initial supply to a destination
//! holding account.
//!
//! The instruction validates the caller-supplied accounts against an
//! explicit pre-condition checklist, then performs two delegated
//! token-service operations in strict sequence: initialize the mint record,
//! then mint the initial supply. The enclosing transaction is atomic: on
//! any failure every effect is rolled back.

pub mod instruction;
pub mod model;
pub mod token_service;
pub mod validate;

pub use instruction::execute_transaction;
pub use instruction::initialize_mint;
pub use model::InitializeMintCtx;
pub use model::MintError;
