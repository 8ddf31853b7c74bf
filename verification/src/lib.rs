//! A native-token ERC-20 interface for an OP-stack EVM, verified with Verus.
//!
//! Calls to the token contract at `0x805` are decoded, decided and answered here; each entry
//! point runs a call as a sequence of requests to the EVM host (balances, storage, journal
//! transfers, logs) and finishes with the call's result. The EVM environment of a block and
//! the transaction environment of a deposit are built here too.

pub mod bytes;
pub mod uint256;
pub mod address;
pub mod abi;
pub mod slots;
pub mod host;
pub mod inspector;
pub mod precompile;
pub mod praf;
pub mod ledger;
pub mod inspector_model;
pub mod precompile_model;
pub mod praf_model;
pub mod laws;
pub mod call_laws;
pub mod outcome_laws;
pub mod env;
pub mod tx;
