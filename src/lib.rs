//! A ledger of tokenized invoices: an issuer records a receivable, lists it at
//! a discount, an investor buys it, and a payer settles the face value, with a
//! platform fee taken at settlement.
//!
//! `registry` holds the lifecycle engine and the contract of every operation,
//! `lifecycle` the laws that follow across operations, `types` the records,
//! `storage` the slot layout and lifetime policy, `errors` the failure kinds.
//! The engine does no I/O: the caller supplies the clock reading, checks
//! authority, and carries out the transfers an operation returns.

pub mod errors;
pub mod lifecycle;
pub mod registry;
pub mod storage;
pub mod types;

pub use errors::Error;
pub use registry::InvoiceRegistry;
pub use storage::DataKey;
pub use types::{Invoice, InvoiceStatus, PlatformConfig};
