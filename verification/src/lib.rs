//! Dispatcher of a fixed-supply token: one-time genesis of the whole supply,
//! permanent revocation of minting, and an authenticated transfer path.
//!
//! An invocation hands over an ordered list of accounts and a payload. The
//! dispatcher binds the accounts to roles by position, checks that the ledger
//! program is the token ledger, and runs the operation that the first byte of
//! the payload selects. What it asks of the ledger it returns as a list of
//! requests.

pub mod account;
pub mod address;
pub mod error;
pub mod laws;
pub mod ledger;
pub mod mint;
pub mod payload;
pub mod processor;
pub mod request;

pub use account::Account;
pub use address::Address;
pub use error::{DispatchError, LedgerError};
pub use processor::process_instruction;
pub use request::{LedgerRequest, RequestAccount};
