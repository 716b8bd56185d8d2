//! Free-standing validation helpers shared by the inventory operations.

use vstd::prelude::*;

use crate::errors::ContractError;
use crate::status::{transition_allowed, BloodStatus, is_valid_transition};
use crate::unit::{QUANTITY_MAX_ML, QUANTITY_MIN_ML};

verus! {

/// Checks that a registration quantity lies within the acceptable range.
pub fn validate_quantity(quantity_ml: u32) -> (r: Result<(), ContractError>)
    ensures
        r is Ok <==> QUANTITY_MIN_ML <= quantity_ml <= QUANTITY_MAX_ML,
        r is Err ==> r == Err::<(), ContractError>(ContractError::InvalidQuantity),
{
    if quantity_ml < QUANTITY_MIN_ML || quantity_ml > QUANTITY_MAX_ML {
        return Err(ContractError::InvalidQuantity);
    }
    Ok(())
}

/// Checks a status transition against the lifecycle state machine.
pub fn validate_status_transition(
    current_status: BloodStatus,
    new_status: BloodStatus,
) -> (r: Result<(), ContractError>)
    ensures
        r is Ok <==> transition_allowed(current_status, new_status),
        r is Err ==> r == Err::<(), ContractError>(ContractError::InvalidStatusTransition),
{
    if !is_valid_transition(&current_status, &new_status) {
        return Err(ContractError::InvalidStatusTransition);
    }
    Ok(())
}

} // verus!
