//! The errors an operation can return.
//!
//! Every error is decided and returned before any state is written: a
//! rejected operation leaves the configuration and the store unchanged.

use vstd::prelude::*;

verus! {

#[derive(Clone, Copy, Debug, PartialEq, Eq, Structural)]
pub enum ContractError {
    /// The caller of an owner-only operation is not the current owner.
    Unauthorized,
    /// The referenced obligation id does not exist in the store.
    NotFound,
    /// A stop was requested on an obligation that was already paid.
    AlreadyPaid,
    /// A stop was requested on an obligation that was already stopped.
    AlreadyStopped,
}

} // verus!
