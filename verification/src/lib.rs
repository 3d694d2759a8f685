//! A scheduled-payment disbursement engine.
//!
//! The library keeps a ledger of payment obligations, each armed with a
//! block-height or timestamp trigger, and offers the operations of a
//! single-owner disbursement contract: add obligations, sweep and pay every
//! obligation whose trigger has expired, stop an obligation with a refund to
//! the owner, and transfer ownership. Every operation is specified and
//! verified over a mathematical view of the ledger.

pub mod contract;
pub mod error;
pub mod laws;
pub mod msg;
pub mod state;
