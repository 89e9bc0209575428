//! The rejection taxonomy.
//!
//! Every transition validates all of its preconditions before touching any
//! state; the first failing check aborts the whole request with one of these
//! rejections and no effect at all.

use vstd::prelude::*;

verus! {

/// Why a transition was rejected.
///
/// `AuthorizationError`: the signer does not hold the role the transition
/// demands.  `ConstraintViolation`: an account reference does not match its
/// derived address, its recorded counterpart, its expected asset type or its
/// expected owner.  `InvalidStateError`: a lifecycle guard failed (trade not
/// found, already executed, or not yet executed).  `DuplicateCreationError`:
/// the address to be allocated is already taken.  `InsufficientFunds` and
/// `BalanceOverflow` propagate the asset ledger's own rejections of a
/// transfer or deposit.
#[derive(Clone, Copy, Debug, PartialEq, Eq, Structural)]
pub enum EscrowError {
    AuthorizationError,
    ConstraintViolation,
    InvalidStateError,
    DuplicateCreationError,
    InsufficientFunds,
    BalanceOverflow,
}

} // verus!
