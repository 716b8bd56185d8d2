//! The closed set of error kinds returned by inventory operations.

use vstd::prelude::*;

verus! {

/// Error kinds of the inventory operations.
///
/// Every operation returns an explicit `Result` carrying one of these; no
/// failure is unstructured, and a rejected mutation leaves the persisted
/// state exactly as it was.
#[derive(Clone, Copy, Debug, PartialEq, Eq, Structural)]
pub enum ContractError {
    AlreadyInitialized,
    NotInitialized,
    Unauthorized,
    InvalidAmount,
    InvalidAddress,
    InvalidInput,
    InvalidBloodType,
    InvalidStatus,
    InvalidTimestamp,
    InvalidQuantity,
    AlreadyExists,
    NotFound,
    Expired,
    BloodUnitExpired,
    InsufficientBalance,
    InsufficientPermissions,
    BloodUnitNotAvailable,
    InvalidStatusTransition,
    DuplicateBloodUnit,
    NotAuthorizedBloodBank,
}

} // verus!
