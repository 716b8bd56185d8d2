use lifebank::account::AccountId;
use lifebank::errors::ContractError;
use lifebank::events::Event;
use lifebank::inventory::InventoryContract;
use lifebank::status::{BloodStatus, BloodType};
use lifebank::unit::SHELF_LIFE_SECONDS;

const NOW: u64 = 1_000_000;

fn setup() -> (AccountId, AccountId, InventoryContract, Vec<Event>) {
    let admin = AccountId(1);
    let bank = AccountId(2);
    let mut store = InventoryContract::new();
    store.initialize(admin).unwrap();
    store.set_authorized_bank(bank, true);
    (admin, bank, store, Vec::new())
}

#[test]
fn initialize_only_once() {
    let mut store = InventoryContract::new();
    assert!(store.initialize(AccountId(1)).is_ok());
    assert_eq!(store.initialize(AccountId(2)), Err(ContractError::AlreadyInitialized));
}

#[test]
fn register_then_get_returns_identical_attributes() {
    let (_admin, bank, mut store, mut events) = setup();

    let id = store
        .register_blood(&mut events, bank, BloodType::ONegative, 450, Some(AccountId(7)), NOW)
        .unwrap();
    assert_eq!(id, 1);

    let unit = store.get_blood_unit(id).unwrap();
    assert_eq!(unit.id, id);
    assert_eq!(unit.blood_type, BloodType::ONegative);
    assert_eq!(unit.quantity_ml, 450);
    assert_eq!(unit.bank_id, bank);
    assert_eq!(unit.donor_id, Some(AccountId(7)));
    assert_eq!(unit.donation_timestamp, NOW);
    assert_eq!(unit.status, BloodStatus::Available);
    // Expiration exceeds donation by exactly the fixed shelf-life constant.
    assert_eq!(unit.expiration_timestamp - unit.donation_timestamp, SHELF_LIFE_SECONDS);
    assert_eq!(SHELF_LIFE_SECONDS, 42 * 24 * 60 * 60);

    // A registration notification was emitted.
    assert_eq!(events.len(), 1);
    assert!(matches!(&events[0], Event::BloodRegistered(e) if e.blood_unit_id == id));
}

#[test]
fn register_requires_initialization_and_authorization() {
    let bank = AccountId(2);
    let mut events: Vec<Event> = Vec::new();

    let mut store = InventoryContract::new();
    assert_eq!(
        store.register_blood(&mut events, bank, BloodType::APositive, 450, None, NOW),
        Err(ContractError::NotInitialized)
    );

    store.initialize(AccountId(1)).unwrap();
    assert_eq!(
        store.register_blood(&mut events, bank, BloodType::APositive, 450, None, NOW),
        Err(ContractError::NotAuthorizedBloodBank)
    );

    store.set_authorized_bank(bank, true);
    assert_eq!(
        store.register_blood(&mut events, bank, BloodType::APositive, 99, None, NOW),
        Err(ContractError::InvalidQuantity)
    );
    assert_eq!(
        store.register_blood(&mut events, bank, BloodType::APositive, 601, None, NOW),
        Err(ContractError::InvalidQuantity)
    );
    assert_eq!(events.len(), 0);

    // Revoking authorization closes the door again.
    store.set_authorized_bank(bank, false);
    assert_eq!(
        store.register_blood(&mut events, bank, BloodType::APositive, 450, None, NOW),
        Err(ContractError::NotAuthorizedBloodBank)
    );
}

#[test]
fn registration_generates_sequential_ids() {
    let (_admin, bank, mut store, mut events) = setup();

    for expected in 1..=5u64 {
        let id = store
            .register_blood(&mut events, bank, BloodType::APositive, 450, None, NOW)
            .unwrap();
        assert_eq!(id, expected);
    }
    assert_eq!(store.get_blood_unit(6), Err(ContractError::NotFound));
}

#[test]
fn update_status_walks_the_lifecycle() {
    let (admin, bank, mut store, mut events) = setup();
    let id = store
        .register_blood(&mut events, bank, BloodType::APositive, 450, None, NOW)
        .unwrap();

    let unit = store
        .update_status(&mut events, id, BloodStatus::Reserved, admin, None, NOW + 1)
        .unwrap();
    assert_eq!(unit.status, BloodStatus::Reserved);

    let unit = store
        .update_status(&mut events, id, BloodStatus::InTransit, admin, None, NOW + 2)
        .unwrap();
    assert_eq!(unit.status, BloodStatus::InTransit);

    let unit = store
        .update_status(
            &mut events,
            id,
            BloodStatus::Delivered,
            admin,
            Some(String::from("Hospital A")),
            NOW + 3,
        )
        .unwrap();
    assert_eq!(unit.status, BloodStatus::Delivered);

    // The store holds the updated record.
    assert_eq!(store.get_blood_unit(id).unwrap().status, BloodStatus::Delivered);

    // Three transitions were recorded, in order, with sequential ids.
    let history = store.get_status_history(id);
    assert_eq!(history.len(), 3);
    assert_eq!(history[0].from_status, BloodStatus::Available);
    assert_eq!(history[0].to_status, BloodStatus::Reserved);
    assert_eq!(history[1].from_status, BloodStatus::Reserved);
    assert_eq!(history[1].to_status, BloodStatus::InTransit);
    assert_eq!(history[2].from_status, BloodStatus::InTransit);
    assert_eq!(history[2].to_status, BloodStatus::Delivered);
    assert_eq!(history[0].id + 1, history[1].id);
    assert_eq!(history[1].id + 1, history[2].id);
    assert_eq!(history[2].reason, Some(String::from("Hospital A")));
    assert_eq!(store.get_status_change_count(id), 3);
}

#[test]
fn update_status_rejections() {
    let (admin, bank, mut store, mut events) = setup();
    let id = store
        .register_blood(&mut events, bank, BloodType::APositive, 450, None, NOW)
        .unwrap();

    // Only the admin may transition.
    assert_eq!(
        store.update_status(&mut events, id, BloodStatus::Reserved, bank, None, NOW + 1),
        Err(ContractError::Unauthorized)
    );
    // A missing unit is rejected.
    assert_eq!(
        store.update_status(&mut events, 99, BloodStatus::Reserved, admin, None, NOW + 1),
        Err(ContractError::NotFound)
    );
    // An illegal transition is rejected, leaves the unit unchanged, and
    // records a diagnostic notification.
    let before = events.len();
    assert_eq!(
        store.update_status(&mut events, id, BloodStatus::Delivered, admin, None, NOW + 1),
        Err(ContractError::InvalidStatusTransition)
    );
    assert_eq!(store.get_blood_unit(id).unwrap().status, BloodStatus::Available);
    assert_eq!(events.len(), before + 1);
    assert!(matches!(
        &events[before],
        Event::InvalidTransition(d)
            if d.blood_unit_id == id
                && d.from_status == BloodStatus::Available
                && d.to_status == BloodStatus::Delivered
    ));
    assert_eq!(store.get_status_change_count(id), 0);
}

#[test]
fn expiry_preempts_even_a_legal_transition_to_expired() {
    let (admin, bank, mut store, mut events) = setup();
    let id = store
        .register_blood(&mut events, bank, BloodType::APositive, 450, None, NOW)
        .unwrap();

    // Available -> Expired is legal in the table, but once the unit's
    // expiration timestamp has passed, the clock-based check pre-empts it.
    let after_expiry = NOW + SHELF_LIFE_SECONDS;
    assert_eq!(
        store.update_status(&mut events, id, BloodStatus::Expired, admin, None, after_expiry),
        Err(ContractError::BloodUnitExpired)
    );
    // Before expiry the same request succeeds.
    let unit = store
        .update_status(&mut events, id, BloodStatus::Expired, admin, None, after_expiry - 1)
        .unwrap();
    assert_eq!(unit.status, BloodStatus::Expired);
}

#[test]
fn mark_delivered_and_mark_expired_wrappers() {
    let (admin, bank, mut store, mut events) = setup();
    let a = store
        .register_blood(&mut events, bank, BloodType::APositive, 450, None, NOW)
        .unwrap();
    let b = store
        .register_blood(&mut events, bank, BloodType::BNegative, 450, None, NOW)
        .unwrap();

    store.update_status(&mut events, a, BloodStatus::Reserved, admin, None, NOW + 1).unwrap();
    store.update_status(&mut events, a, BloodStatus::InTransit, admin, None, NOW + 2).unwrap();
    let unit = store
        .mark_delivered(&mut events, a, admin, String::from("Hospital B"), NOW + 3)
        .unwrap();
    assert_eq!(unit.status, BloodStatus::Delivered);
    let history = store.get_status_history(a);
    assert_eq!(history.last().unwrap().reason, Some(String::from("Hospital B")));

    let unit = store.mark_expired(&mut events, b, admin, NOW + 4).unwrap();
    assert_eq!(unit.status, BloodStatus::Expired);
    let history = store.get_status_history(b);
    assert_eq!(history.last().unwrap().reason, Some(String::from("Marked as expired")));
}

#[test]
fn batch_update_status_applies_all_and_returns_count() {
    let (admin, bank, mut store, mut events) = setup();
    let mut ids: Vec<u64> = Vec::new();
    for _ in 0..3 {
        ids.push(
            store
                .register_blood(&mut events, bank, BloodType::OPositive, 450, None, NOW)
                .unwrap(),
        );
    }

    let count = store
        .batch_update_status(&mut events, &ids, BloodStatus::Reserved, admin, None, NOW + 1)
        .unwrap();
    assert_eq!(count, 3);
    for id in &ids {
        assert_eq!(store.get_blood_unit(*id).unwrap().status, BloodStatus::Reserved);
        assert_eq!(store.get_status_change_count(*id), 1);
        assert_eq!(store.get_status_history(*id).len(), 1);
    }
}

#[test]
fn batch_with_one_illegal_transition_updates_nothing() {
    let (admin, bank, mut store, mut events) = setup();
    let a = store
        .register_blood(&mut events, bank, BloodType::APositive, 450, None, NOW)
        .unwrap();
    let b = store
        .register_blood(&mut events, bank, BloodType::BPositive, 450, None, NOW)
        .unwrap();
    let c = store
        .register_blood(&mut events, bank, BloodType::ONegative, 450, None, NOW)
        .unwrap();

    // Move B ahead so that B -> Reserved is illegal while A and C are fine.
    store.update_status(&mut events, b, BloodStatus::Reserved, admin, None, NOW + 1).unwrap();
    store.update_status(&mut events, b, BloodStatus::InTransit, admin, None, NOW + 2).unwrap();

    let ids = vec![a, b, c];
    let result = store.batch_update_status(
        &mut events,
        &ids,
        BloodStatus::Reserved,
        admin,
        None,
        NOW + 3,
    );
    assert_eq!(result, Err(ContractError::InvalidStatusTransition));

    // None of A, B, C was observably updated: not A (which preceded the
    // failure), not B, not C.
    assert_eq!(store.get_blood_unit(a).unwrap().status, BloodStatus::Available);
    assert_eq!(store.get_blood_unit(b).unwrap().status, BloodStatus::InTransit);
    assert_eq!(store.get_blood_unit(c).unwrap().status, BloodStatus::Available);
    assert_eq!(store.get_status_change_count(a), 0);
    assert_eq!(store.get_status_change_count(c), 0);
    assert_eq!(store.get_status_history(a).len(), 0);

    // The diagnostic for the failing unit was still recorded.
    assert!(matches!(
        events.last().unwrap(),
        Event::InvalidTransition(d)
            if d.blood_unit_id == b && d.from_status == BloodStatus::InTransit
    ));
}

#[test]
fn batch_rejects_missing_and_expired_units() {
    let (admin, bank, mut store, mut events) = setup();
    let a = store
        .register_blood(&mut events, bank, BloodType::APositive, 450, None, NOW)
        .unwrap();

    let ids = vec![a, 99];
    assert_eq!(
        store.batch_update_status(&mut events, &ids, BloodStatus::Reserved, admin, None, NOW + 1),
        Err(ContractError::NotFound)
    );
    assert_eq!(store.get_blood_unit(a).unwrap().status, BloodStatus::Available);

    let ids = vec![a];
    assert_eq!(
        store.batch_update_status(
            &mut events,
            &ids,
            BloodStatus::Reserved,
            admin,
            None,
            NOW + SHELF_LIFE_SECONDS,
        ),
        Err(ContractError::BloodUnitExpired)
    );

    assert_eq!(
        store.batch_update_status(&mut events, &ids, BloodStatus::Reserved, bank, None, NOW + 1),
        Err(ContractError::Unauthorized)
    );
}

#[test]
fn batch_rejects_a_repeated_identity_as_a_self_transition() {
    let (admin, bank, mut store, mut events) = setup();
    let a = store
        .register_blood(&mut events, bank, BloodType::APositive, 450, None, NOW)
        .unwrap();

    // The second occurrence would transition Reserved -> Reserved.
    let ids = vec![a, a];
    assert_eq!(
        store.batch_update_status(&mut events, &ids, BloodStatus::Reserved, admin, None, NOW + 1),
        Err(ContractError::InvalidStatusTransition)
    );
    assert_eq!(store.get_blood_unit(a).unwrap().status, BloodStatus::Available);
}

#[test]
fn indexes_hold_registered_ids_as_append_only_hints() {
    let (admin, bank, mut store, mut events) = setup();
    let donor = AccountId(7);
    let a = store
        .register_blood(&mut events, bank, BloodType::APositive, 450, Some(donor), NOW)
        .unwrap();
    let b = store
        .register_blood(&mut events, bank, BloodType::APositive, 500, None, NOW)
        .unwrap();

    let by_type = store.blood_type_index.values().flatten().copied().collect::<Vec<u64>>();
    assert!(by_type.contains(&a) && by_type.contains(&b));
    let by_bank = store.bank_index.get(&bank.0).unwrap();
    assert_eq!(by_bank.as_slice(), &[a, b]);
    let by_donor = store.donor_index.get(&donor.0).unwrap();
    assert_eq!(by_donor.as_slice(), &[a]);

    // The status index is keyed by the status at registration time and is
    // never pruned: after a transition the entry remains, so it is a
    // candidate set, not an authoritative membership test.
    store.update_status(&mut events, a, BloodStatus::Reserved, admin, None, NOW + 1).unwrap();
    let status_entries = store.status_index.values().flatten().copied().collect::<Vec<u64>>();
    assert!(status_entries.contains(&a));
    assert_eq!(store.get_blood_unit(a).unwrap().status, BloodStatus::Reserved);
}

#[test]
fn history_of_an_untouched_unit_is_empty() {
    let (_admin, bank, mut store, mut events) = setup();
    let id = store
        .register_blood(&mut events, bank, BloodType::APositive, 450, None, NOW)
        .unwrap();
    assert_eq!(store.get_status_history(id).len(), 0);
    assert_eq!(store.get_status_change_count(id), 0);
    assert_eq!(store.get_status_history(12345).len(), 0);
}
