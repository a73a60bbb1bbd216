//! The rules of a two-currency economy for paid readings.
//!
//! A reading is priced in SOL and in the NEPTU token. Paying in SOL is
//! rewarded with tokens from a rewards pool; paying in tokens burns half of
//! the price and recycles the rest; rewards earned elsewhere are claimed
//! against a nonce that must rise with every claim. The token's supply is
//! issued once, parted among four pools.
//!
//! The library decides and the ledger executes. Every operation that moves
//! value answers with a plan, a list of [`instruction::Instruction`]s; an
//! [`execution::Execution`] leads the caller through the plan, one request at
//! a time, and says when and how the operation has ended. Balances are the
//! ledger's: the library holds none.
//!
//! Transfers out of a pool are signed by an identity that the program derives
//! for itself ([`authority::ProgramAuthority`]). The derivation is the one
//! outside computation that the library relies on without proof.

pub mod address;
pub mod authority;
pub mod bps;
pub mod claim;
pub mod defaults;
pub mod economy;
pub mod error;
pub mod execution;
pub mod instruction;
pub mod payment;
pub mod pricing;
pub mod token;
