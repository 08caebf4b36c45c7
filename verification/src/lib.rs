//! Self-certifying account identifiers and a transaction execution host.
//!
//! The crate has two tightly coupled parts:
//!
//! - [`account_id`]: derivation and validation of account identifiers. An
//!   identifier is a single field-element value carved out of a seed digest;
//!   it encodes the account category and storage locality in its top bits and
//!   is admitted only if it meets a minimum Hamming weight and, at derivation
//!   time, a category-dependent proof-of-work threshold.
//! - [`host`]: the host capability set a deterministic virtual machine calls
//!   back into while executing a transaction: advice pass-through, program
//!   fragment resolution by digest, and privileged event dispatch.

pub mod account_id;
pub mod field;
pub mod hashing;
pub mod host;
