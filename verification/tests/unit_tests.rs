use lifebank::account::AccountId;
use lifebank::errors::ContractError;
use lifebank::status::{BloodStatus, BloodType};
use lifebank::unit::BloodUnit;

fn make_unit(
    quantity_ml: u32,
    donation_timestamp: u64,
    expiration_timestamp: u64,
) -> BloodUnit {
    BloodUnit {
        id: 1,
        blood_type: BloodType::APositive,
        quantity_ml,
        bank_id: AccountId(5),
        donor_id: None,
        donation_timestamp,
        expiration_timestamp,
        status: BloodStatus::Available,
        metadata: Vec::new(),
    }
}

#[test]
fn test_blood_unit_validation_valid() {
    let current_time = 1000u64;
    let unit = make_unit(450, current_time, current_time + (42 * 24 * 60 * 60));
    assert!(unit.validate(current_time).is_ok());
}

#[test]
fn test_blood_unit_validation_invalid_quantity_too_low() {
    let current_time = 1000u64;
    let unit = make_unit(50, current_time, current_time + (42 * 24 * 60 * 60));
    assert_eq!(unit.validate(current_time), Err(ContractError::InvalidQuantity));
}

#[test]
fn test_blood_unit_validation_invalid_quantity_too_high() {
    let current_time = 1000u64;
    let unit = make_unit(700, current_time, current_time + (42 * 24 * 60 * 60));
    assert_eq!(unit.validate(current_time), Err(ContractError::InvalidQuantity));
}

#[test]
fn test_blood_unit_validation_expiration_before_donation() {
    let current_time = 1000u64;
    let unit = make_unit(450, current_time, current_time - 100);
    assert_eq!(unit.validate(current_time), Err(ContractError::InvalidTimestamp));
}

#[test]
fn test_blood_unit_validation_future_donation() {
    let current_time = 1000u64;
    // 2 hours in the future: beyond the 1 hour clock-skew tolerance
    let unit = make_unit(450, current_time + 7200, current_time + (42 * 24 * 60 * 60));
    assert_eq!(unit.validate(current_time), Err(ContractError::InvalidTimestamp));
}

#[test]
fn test_blood_unit_is_expired() {
    let donation_time = 1000u64;
    let expiration_time = donation_time + (42 * 24 * 60 * 60);
    let unit = make_unit(450, donation_time, expiration_time);

    // Not expired before expiration time
    assert!(!unit.is_expired(expiration_time - 1));

    // Expired at expiration time
    assert!(unit.is_expired(expiration_time));

    // Expired after expiration time
    assert!(unit.is_expired(expiration_time + 100));
}

#[test]
fn test_blood_unit_shelf_life_remaining() {
    let donation_time = 1000u64;
    let expiration_time = donation_time + 3600; // 1 hour
    let unit = make_unit(450, donation_time, expiration_time);

    // 30 minutes before expiration
    assert_eq!(unit.shelf_life_remaining(donation_time + 1800), 1800);

    // At expiration
    assert_eq!(unit.shelf_life_remaining(expiration_time), 0);

    // 10 minutes past expiration
    assert_eq!(unit.shelf_life_remaining(expiration_time + 600), -600);
}
