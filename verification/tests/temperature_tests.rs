use lifebank::account::AccountId;
use lifebank::temperature::{ContractError, TemperatureContract, PAGE_SIZE};

fn create_test_contract() -> (AccountId, TemperatureContract) {
    let mut store = TemperatureContract::new();
    let admin = AccountId(1);
    store.initialize(admin).unwrap();
    (admin, store)
}

#[test]
fn test_zero_padded_entries_not_returned_as_violations() {
    let (admin, mut store) = create_test_contract();

    let unit_id = 42u64;
    // Set threshold: min = 200 (2.00 C), max = 600 (6.00 C)
    store.set_threshold(admin, unit_id, 200, 600).unwrap();

    // Log exactly 21 readings (one more than page size of 20)
    for i in 0..21u64 {
        let temp = 400 + (i % 3) as i32; // Vary between 400-402 (all within range)
        let timestamp = 1000 + i;
        store.log_reading(unit_id, temp, timestamp).unwrap();
    }

    // Get violations
    let violations = store.get_violations(unit_id).unwrap();

    // Should have zero violations since all logged readings are within threshold
    assert_eq!(violations.len(), 0, "Expected no violations but got {}", violations.len());
}

#[test]
fn test_page_size_plus_one_with_violation_in_second_page() {
    let (admin, mut store) = create_test_contract();

    let unit_id = 43u64;
    store.set_threshold(admin, unit_id, 200, 600).unwrap();

    // Log exactly 21 readings
    // First 20 readings: all within range
    for i in 0..20u64 {
        let temp = 400 + (i % 3) as i32; // Within 200-600 range
        let timestamp = 1000 + i;
        store.log_reading(unit_id, temp, timestamp).unwrap();
    }

    // 21st reading: a violation (too cold)
    store.log_reading(unit_id, 100, 1020).unwrap();

    // Get violations
    let violations = store.get_violations(unit_id).unwrap();

    // Should have exactly 1 violation
    assert_eq!(violations.len(), 1, "Expected 1 violation but got {}", violations.len());
    assert_eq!(violations[0].temperature_celsius_x100, 100);
}

#[test]
fn test_multiple_pages_correct_violation_count() {
    let (admin, mut store) = create_test_contract();

    let unit_id = 44u64;
    store.set_threshold(admin, unit_id, 200, 600).unwrap();

    // Log 50 readings across multiple pages
    let mut expected_violations = 0;
    for i in 0..50u64 {
        let temp = if i % 10 == 9 {
            // Every 10th reading is a violation (too hot)
            expected_violations += 1;
            700
        } else {
            400 // Within range
        };
        let timestamp = 1000 + i;
        store.log_reading(unit_id, temp, timestamp).unwrap();
    }

    // Get violations
    let violations = store.get_violations(unit_id).unwrap();

    // Should have exactly 5 violations (indices 9, 19, 29, 39, 49)
    assert_eq!(
        violations.len() as u64,
        expected_violations,
        "Expected {} violations but got {}",
        expected_violations,
        violations.len()
    );

    // Verify all returned readings are violations
    for reading in violations.iter() {
        assert!(
            reading.is_violation,
            "Returned reading should be marked as violation"
        );
        assert!(
            reading.temperature_celsius_x100 < 200 || reading.temperature_celsius_x100 > 600,
            "Returned reading should actually violate threshold"
        );
    }
}

#[test]
fn test_get_all_readings_ignores_padding() {
    let (admin, mut store) = create_test_contract();

    let unit_id = 45u64;
    store.set_threshold(admin, unit_id, 200, 600).unwrap();

    // Log exactly 21 readings
    for i in 0..21u64 {
        let temp = 400 + (i % 3) as i32;
        let timestamp = 1000 + i;
        store.log_reading(unit_id, temp, timestamp).unwrap();
    }

    // Get all readings
    let readings = store.get_readings(unit_id).unwrap();

    // Should have exactly 21 readings, not 40 (2 pages)
    assert_eq!(readings.len(), 21, "Expected 21 readings but got {}", readings.len());

    // Verify none are zero-padded (all should have valid timestamps)
    for reading in readings.iter() {
        assert!(
            reading.timestamp >= 1000 && reading.timestamp < 1021,
            "Reading should have valid timestamp from actual log"
        );
    }
}

#[test]
fn test_threshold_violation_detection_with_zero_temp() {
    let (admin, mut store) = create_test_contract();

    let unit_id = 46u64;
    store.set_threshold(admin, unit_id, 200, 600).unwrap();

    // Log exactly 21 readings (21st will be in second page)
    for i in 0..21u64 {
        let temp = 400;
        let timestamp = 1000 + i;
        store.log_reading(unit_id, temp, timestamp).unwrap();
    }

    // Verify the second page exists but has no padding pollution
    let violations = store.get_violations(unit_id).unwrap();
    assert_eq!(violations.len(), 0, "No readings should be violations");

    let all_readings = store.get_readings(unit_id).unwrap();
    assert_eq!(all_readings.len(), 21, "Should have exactly 21 readings");

    // Verify the 21st reading is not a default/zero-padded entry
    let last_reading = all_readings[20];
    assert_eq!(last_reading.temperature_celsius_x100, 400, "21st reading should be valid");
    assert_eq!(last_reading.timestamp, 1020, "21st reading should have correct timestamp");
}

#[test]
fn twenty_one_readings_make_one_full_page_and_one_of_length_one() {
    let (admin, mut store) = create_test_contract();

    let unit_id = 47u64;
    store.set_threshold(admin, unit_id, 200, 600).unwrap();
    for i in 0..21u64 {
        store.log_reading(unit_id, 400, 1000 + i).unwrap();
    }

    let series = store.pages.get(&unit_id).unwrap();
    assert_eq!(series.len(), 2, "21 readings should span exactly two pages");
    assert_eq!(series[0].len, PAGE_SIZE, "The first page should be exactly full");
    assert_eq!(series[1].len, 1, "The second page should hold the single overflow reading");
}

#[test]
fn initialize_twice_is_rejected() {
    let (_admin, mut store) = create_test_contract();
    assert_eq!(store.initialize(AccountId(2)), Err(ContractError::AlreadyInitialized));
}

#[test]
fn set_threshold_rejects_wrong_admin_and_bad_bounds() {
    let (admin, mut store) = create_test_contract();

    assert_eq!(
        store.set_threshold(AccountId(99), 1, 200, 600),
        Err(ContractError::Unauthorized)
    );
    // min >= max is invalid
    assert_eq!(store.set_threshold(admin, 1, 600, 600), Err(ContractError::InvalidThreshold));
    assert_eq!(store.set_threshold(admin, 1, 700, 600), Err(ContractError::InvalidThreshold));
}

#[test]
fn log_reading_without_threshold_is_rejected() {
    let (_admin, mut store) = create_test_contract();
    assert_eq!(store.log_reading(5, 400, 1000), Err(ContractError::ThresholdNotFound));
}

#[test]
fn threshold_change_does_not_reclassify_earlier_readings() {
    let (admin, mut store) = create_test_contract();

    let unit_id = 48u64;
    store.set_threshold(admin, unit_id, 200, 600).unwrap();
    store.log_reading(unit_id, 400, 1000).unwrap();

    // Tighten the threshold so 400 would now violate; the stored flag
    // was frozen at write time and must not change.
    store.set_threshold(admin, unit_id, 200, 300).unwrap();
    let violations = store.get_violations(unit_id).unwrap();
    assert_eq!(violations.len(), 0);

    // A new reading at the same temperature is evaluated against the
    // threshold in effect now.
    store.log_reading(unit_id, 400, 1001).unwrap();
    let violations = store.get_violations(unit_id).unwrap();
    assert_eq!(violations.len(), 1);
    assert_eq!(violations[0].timestamp, 1001);
}
