//! Argument and account-role logic for a governance flow that drives an
//! external multisig program through cross-program calls: each operation
//! checks the accounts it is handed and builds the argument record of one
//! entry point of that program. An in-memory backend applies the program's
//! rules to those records, so that a flow can be run without a chain.

pub mod accounts;
pub mod backend;
pub mod instructions;
pub mod message;
pub mod permissions;
