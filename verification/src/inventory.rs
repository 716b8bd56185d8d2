//! The inventory store: blood-unit records, the monotonic ID counter, four
//! append-only secondary indexes, and the audit trail.
//!
//! The hosting ledger's key-value tiers are held explicitly in
//! [`InventoryContract`], so every operation is a verified function from the
//! old state (plus the ledger clock, passed as a plain timestamp) to the new
//! one. The secondary indexes are append-only hints: entries are never removed
//! when a unit changes, so an index result is a candidate set to re-validate
//! against the authoritative unit record, never a membership proof.

use vstd::prelude::*;

use std::collections::HashMap;
use std::collections::HashSet;

use crate::account::AccountId;
use crate::errors::ContractError;
use crate::events::{
    opt_string_view, status_event_matches, BloodRegisteredEvent, Event, InvalidTransitionEvent,
    StatusChangeEvent,
};
use crate::history::{clone_opt_string, history_entry_matches, StatusChangeHistory};
use crate::status::{is_valid_transition, transition_allowed, BloodStatus, BloodType};
use crate::unit::{
    spec_is_expired, BloodUnit, BloodUnitView, QUANTITY_MAX_ML, QUANTITY_MIN_ML,
    SHELF_LIFE_SECONDS,
};

verus! {

broadcast use vstd::std_specs::hash::group_hash_axioms;

/// Small injective code for a blood type, used to key its index.
pub open spec fn blood_type_code(bt: BloodType) -> u64 {
    match bt {
        BloodType::APositive => 0,
        BloodType::ANegative => 1,
        BloodType::BPositive => 2,
        BloodType::BNegative => 3,
        BloodType::ABPositive => 4,
        BloodType::ABNegative => 5,
        BloodType::OPositive => 6,
        BloodType::ONegative => 7,
    }
}

/// Small injective code for a status, used to key its index.
pub open spec fn status_code(s: BloodStatus) -> u64 {
    match s {
        BloodStatus::Available => 0,
        BloodStatus::Reserved => 1,
        BloodStatus::InTransit => 2,
        BloodStatus::Delivered => 3,
        BloodStatus::Expired => 4,
    }
}

fn blood_type_key(bt: BloodType) -> (k: u64)
    ensures
        k == blood_type_code(bt),
{
    match bt {
        BloodType::APositive => 0,
        BloodType::ANegative => 1,
        BloodType::BPositive => 2,
        BloodType::BNegative => 3,
        BloodType::ABPositive => 4,
        BloodType::ABNegative => 5,
        BloodType::OPositive => 6,
        BloodType::ONegative => 7,
    }
}

fn status_key(s: BloodStatus) -> (k: u64)
    ensures
        k == status_code(s),
{
    match s {
        BloodStatus::Available => 0,
        BloodStatus::Reserved => 1,
        BloodStatus::InTransit => 2,
        BloodStatus::Delivered => 3,
        BloodStatus::Expired => 4,
    }
}

/// The sequence stored in an index map under `k`, empty if absent.
pub open spec fn index_seq(m: Map<u64, Vec<u64>>, k: u64) -> Seq<u64> {
    if m.contains_key(k) {
        m[k]@
    } else {
        Seq::empty()
    }
}

/// Copies a vector of plain values.
fn copy_vec<T: Copy>(v: &Vec<T>) -> (r: Vec<T>)
    ensures
        r@ == v@,
{
    let mut r: Vec<T> = Vec::new();
    let mut i: usize = 0;
    while i < v.len()
        invariant
            i <= v.len(),
            r@ == v@.subrange(0, i as int),
        decreases v.len() - i,
    {
        r.push(v[i]);
        proof {
            assert(r@ =~= v@.subrange(0, i + 1));
        }
        i = i + 1;
    }
    proof {
        assert(r@ =~= v@);
    }
    r
}

/// Copies a unit's audit-trail sequence.
fn clone_history_vec(v: &Vec<StatusChangeHistory>) -> (r: Vec<StatusChangeHistory>)
    ensures
        r@ == v@,
{
    let mut r: Vec<StatusChangeHistory> = Vec::new();
    let mut i: usize = 0;
    while i < v.len()
        invariant
            i <= v.len(),
            r@ == v@.subrange(0, i as int),
        decreases v.len() - i,
    {
        r.push(v[i].clone());
        proof {
            assert(r@ =~= v@.subrange(0, i + 1));
        }
        i = i + 1;
    }
    proof {
        assert(r@ =~= v@);
    }
    r
}

/// Appends `unit_id` to the sequence an index keeps under `key`.
fn append_index(index: &mut HashMap<u64, Vec<u64>>, key: u64, unit_id: u64)
    ensures
        index_seq(final(index)@, key) == index_seq(old(index)@, key).push(unit_id),
        forall|k: u64| k != key ==> index_seq(final(index)@, k) == index_seq(old(index)@, k),
{
    let mut ids: Vec<u64> = match index.get(&key) {
        Some(existing) => copy_vec(existing),
        None => Vec::new(),
    };
    ids.push(unit_id);
    index.insert(key, ids);
}

/// The inventory store with all state the hosting ledger would persist:
/// admin identity, authorized banks, the unit-ID counter, unit records,
/// the four secondary indexes, and the audit trail with its counters.
pub struct InventoryContract {
    /// The single global authority over status transitions; `None` until
    /// `initialize` has run.
    pub admin: Option<AccountId>,
    /// Banks currently authorized to register donations, by identity.
    pub authorized_banks: HashSet<u64>,
    /// Monotonic counter from which unit identities are generated.
    pub unit_counter: u64,
    /// Unit records by identity.
    pub units: HashMap<u64, BloodUnit>,
    /// Index: blood-type code to unit identities, append-only.
    pub blood_type_index: HashMap<u64, Vec<u64>>,
    /// Index: custodian bank identity to unit identities, append-only.
    pub bank_index: HashMap<u64, Vec<u64>>,
    /// Index: status code at registration time to unit identities,
    /// append-only and therefore stale after a unit's first transition.
    pub status_index: HashMap<u64, Vec<u64>>,
    /// Index: donor identity to unit identities, append-only.
    pub donor_index: HashMap<u64, Vec<u64>>,
    /// Audit trail per unit, in application order.
    pub history: HashMap<u64, Vec<StatusChangeHistory>>,
    /// Monotonic counter from which history-record identities are generated.
    pub history_counter: u64,
    /// Per-unit count of applied transitions, independent of the trail.
    pub change_counts: HashMap<u64, u64>,
}

impl InventoryContract {
    /// The stored unit records as a mathematical map.
    pub open spec fn units_model(self) -> Map<u64, BloodUnitView> {
        Map::new(|id: u64| self.units@.contains_key(id), |id: u64| self.units@[id]@)
    }

    /// The record stored under `id`, if any.
    pub open spec fn spec_unit(self, id: u64) -> Option<BloodUnitView> {
        if self.units@.contains_key(id) {
            Some(self.units@[id]@)
        } else {
            None
        }
    }

    /// The audit trail of `id`, empty if nothing was ever recorded.
    pub open spec fn spec_history(self, id: u64) -> Seq<StatusChangeHistory> {
        if self.history@.contains_key(id) {
            self.history@[id]@
        } else {
            Seq::empty()
        }
    }

    /// The transition count of `id`, zero if it never changed.
    pub open spec fn spec_change_count(self, id: u64) -> u64 {
        if self.change_counts@.contains_key(id) {
            self.change_counts@[id]
        } else {
            0
        }
    }

    pub open spec fn spec_type_index(self, bt: BloodType) -> Seq<u64> {
        index_seq(self.blood_type_index@, blood_type_code(bt))
    }

    pub open spec fn spec_bank_index(self, bank: AccountId) -> Seq<u64> {
        index_seq(self.bank_index@, bank.0)
    }

    pub open spec fn spec_status_index(self, s: BloodStatus) -> Seq<u64> {
        index_seq(self.status_index@, status_code(s))
    }

    pub open spec fn spec_donor_index(self, donor: AccountId) -> Seq<u64> {
        index_seq(self.donor_index@, donor.0)
    }

    pub open spec fn spec_is_bank_authorized(self, bank: AccountId) -> bool {
        self.authorized_banks@.contains(bank.0)
    }

    pub open spec fn is_initialized(self) -> bool {
        self.admin is Some
    }

    /// Well-formedness: every stored unit sits at its own identity, below the
    /// counter (so freshly generated identities can never collide), obeys the
    /// registration validity rules, and is listed in the indexes of its
    /// immutable attributes. The converse does not hold — an index is an
    /// append-only hint, never an authoritative membership test.
    pub open spec fn wf(self) -> bool {
        forall|id: u64| #[trigger] self.units@.contains_key(id) ==> {
            &&& 1 <= id <= self.unit_counter
            &&& self.units@[id].id == id
            &&& QUANTITY_MIN_ML <= self.units@[id].quantity_ml <= QUANTITY_MAX_ML
            &&& self.units@[id].donation_timestamp < self.units@[id].expiration_timestamp
            &&& self.spec_type_index(self.units@[id].blood_type).contains(id)
            &&& self.spec_bank_index(self.units@[id].bank_id).contains(id)
            &&& match self.units@[id].donor_id {
                Some(d) => self.spec_donor_index(d).contains(id),
                None => true,
            }
        }
    }

    /// Well-formedness of the audit trail: every record in a unit's history
    /// names that unit and carries an identity drawn from the history
    /// counter, and records appear in allocation order, so the trail reads
    /// back exactly as the transitions were applied.
    pub open spec fn history_wf(self) -> bool {
        forall|id: u64| #[trigger] self.history@.contains_key(id) ==> {
            let h = self.history@[id]@;
            &&& forall|i: int| 0 <= i < h.len() ==> (#[trigger] h[i]).blood_unit_id == id && 1
                <= h[i].id <= self.history_counter
            &&& forall|i: int, j: int| 0 <= i < j < h.len() ==> h[i].id < h[j].id
        }
    }

    /// A fresh, uninitialized store with no units, no indexes, no trail.
    pub fn new() -> (s: Self)
        ensures
            s.wf(),
            s.history_wf(),
            !s.is_initialized(),
            s.unit_counter == 0,
            s.history_counter == 0,
            forall|id: u64| s.spec_unit(id) is None,
            forall|id: u64| s.spec_history(id) == Seq::<StatusChangeHistory>::empty(),
            forall|id: u64| s.spec_change_count(id) == 0,
            forall|bt: BloodType| s.spec_type_index(bt) == Seq::<u64>::empty(),
            forall|b: AccountId| s.spec_bank_index(b) == Seq::<u64>::empty(),
            forall|st: BloodStatus| s.spec_status_index(st) == Seq::<u64>::empty(),
            forall|d: AccountId| s.spec_donor_index(d) == Seq::<u64>::empty(),
            forall|b: AccountId| !s.spec_is_bank_authorized(b),
    {
        InventoryContract {
            admin: None,
            authorized_banks: HashSet::new(),
            unit_counter: 0,
            units: HashMap::new(),
            blood_type_index: HashMap::new(),
            bank_index: HashMap::new(),
            status_index: HashMap::new(),
            donor_index: HashMap::new(),
            history: HashMap::new(),
            history_counter: 0,
            change_counts: HashMap::new(),
        }
    }

    /// Stores the admin identity; fails if one is already set.
    pub fn initialize(&mut self, admin: AccountId) -> (r: Result<(), ContractError>)
        ensures
            old(self).is_initialized() ==> r == Err::<(), ContractError>(
                ContractError::AlreadyInitialized,
            ) && *final(self) == *old(self),
            !old(self).is_initialized() ==> r == Ok::<(), ContractError>(()) && *final(self)
                == (InventoryContract { admin: Some(admin), ..*old(self) }),
    {
        if self.admin.is_some() {
            return Err(ContractError::AlreadyInitialized);
        }
        self.admin = Some(admin);
        Ok(())
    }

    /// Grants or revokes a bank's authorization to register donations.
    pub fn set_authorized_bank(&mut self, bank: AccountId, authorized: bool)
        ensures
            final(self).authorized_banks@ == if authorized {
                old(self).authorized_banks@.insert(bank.0)
            } else {
                old(self).authorized_banks@.remove(bank.0)
            },
            final(self).admin == old(self).admin,
            final(self).unit_counter == old(self).unit_counter,
            final(self).units == old(self).units,
            final(self).blood_type_index == old(self).blood_type_index,
            final(self).bank_index == old(self).bank_index,
            final(self).status_index == old(self).status_index,
            final(self).donor_index == old(self).donor_index,
            final(self).history == old(self).history,
            final(self).history_counter == old(self).history_counter,
            final(self).change_counts == old(self).change_counts,
    {
        if authorized {
            self.authorized_banks.insert(bank.0);
        } else {
            self.authorized_banks.remove(&bank.0);
        }
    }

    /// Whether `bank` is currently authorized to register donations.
    pub fn is_authorized_bank(&self, bank: &AccountId) -> (r: bool)
        ensures
            r == self.spec_is_bank_authorized(*bank),
    {
        self.authorized_banks.contains(&bank.0)
    }

    /// Registers a new donation: validates the quantity, generates a fresh
    /// identity from the counter, derives both timestamps from the ledger
    /// clock `now` (expiration is donation plus the fixed shelf life), stores
    /// the record, appends the identity to all four indexes, and emits a
    /// registration notification.
    ///
    /// The existence check before the write is a deliberate safety margin: it
    /// turns registration into a compare-and-set, and well-formedness proves
    /// that under this state model it can never fire.
    pub fn register_blood(
        &mut self,
        events: &mut Vec<Event>,
        bank_id: AccountId,
        blood_type: BloodType,
        quantity_ml: u32,
        donor_id: Option<AccountId>,
        now: u64,
    ) -> (r: Result<u64, ContractError>)
        requires
            old(self).wf(),
            old(self).history_wf(),
            old(self).unit_counter < u64::MAX,
            now <= u64::MAX - SHELF_LIFE_SECONDS,
        ensures
            final(self).wf(),
            final(self).history_wf(),
            !old(self).is_initialized() ==> r == Err::<u64, ContractError>(
                ContractError::NotInitialized,
            ) && *final(self) == *old(self) && *final(events) == *old(events),
            old(self).is_initialized() && !old(self).spec_is_bank_authorized(bank_id) ==> r
                == Err::<u64, ContractError>(ContractError::NotAuthorizedBloodBank) && *final(self)
                == *old(self) && *final(events) == *old(events),
            old(self).is_initialized() && old(self).spec_is_bank_authorized(bank_id) && !(
            QUANTITY_MIN_ML <= quantity_ml <= QUANTITY_MAX_ML) ==> r == Err::<u64, ContractError>(
                ContractError::InvalidQuantity,
            ) && *final(self) == *old(self) && *final(events) == *old(events),
            old(self).is_initialized() && old(self).spec_is_bank_authorized(bank_id)
                && QUANTITY_MIN_ML <= quantity_ml <= QUANTITY_MAX_ML ==> ({
                let id = (old(self).unit_counter + 1) as u64;
                &&& r == Ok::<u64, ContractError>(id)
                &&& final(self).unit_counter == id
                &&& final(self).spec_unit(id) == Some(
                    spec_registered_unit(id, bank_id, blood_type, quantity_ml, donor_id, now),
                )
                &&& forall|j: u64| j != id ==> final(self).spec_unit(j) == old(self).spec_unit(j)
                &&& final(self).spec_type_index(blood_type) == old(self).spec_type_index(
                    blood_type,
                ).push(id)
                &&& forall|bt: BloodType| bt != blood_type ==> final(self).spec_type_index(bt)
                    == old(self).spec_type_index(bt)
                &&& final(self).spec_bank_index(bank_id) == old(self).spec_bank_index(
                    bank_id,
                ).push(id)
                &&& forall|b: AccountId| b != bank_id ==> final(self).spec_bank_index(b) == old(self).spec_bank_index(b)
                &&& final(self).spec_status_index(BloodStatus::Available) == old(self).spec_status_index(BloodStatus::Available).push(id)
                &&& forall|s: BloodStatus| s != BloodStatus::Available ==> final(self).spec_status_index(s) == old(self).spec_status_index(s)
                &&& match donor_id {
                    Some(d) => final(self).spec_donor_index(d) == old(self).spec_donor_index(
                        d,
                    ).push(id) && forall|o: AccountId| o != d ==> final(self).spec_donor_index(o)
                        == old(self).spec_donor_index(o),
                    None => forall|o: AccountId| final(self).spec_donor_index(o)
                        == old(self).spec_donor_index(o),
                }
                &&& final(self).history == old(self).history
                &&& final(self).history_counter == old(self).history_counter
                &&& final(self).change_counts == old(self).change_counts
                &&& final(self).admin == old(self).admin
                &&& final(self).authorized_banks == old(self).authorized_banks
                &&& final(events)@ == old(events)@.push(
                    spec_registration_event(id, bank_id, blood_type, quantity_ml, now),
                )
            }),
    {
        if self.admin.is_none() {
            return Err(ContractError::NotInitialized);
        }
        if !self.is_authorized_bank(&bank_id) {
            return Err(ContractError::NotAuthorizedBloodBank);
        }
        match crate::validation::validate_quantity(quantity_ml) {
            Err(e) => {
                return Err(e);
            },
            Ok(()) => (),
        }
        // Generate a fresh identity from the counter, then double-check that
        // the slot is actually empty before writing.
        let id = self.unit_counter + 1;
        self.unit_counter = id;
        if self.units.contains_key(&id) {
            return Err(ContractError::DuplicateBloodUnit);
        }
        let expiration_timestamp = now + SHELF_LIFE_SECONDS;
        let blood_unit = BloodUnit {
            id,
            blood_type,
            quantity_ml,
            bank_id,
            donor_id,
            donation_timestamp: now,
            expiration_timestamp,
            status: BloodStatus::Available,
            metadata: Vec::new(),
        };
        match blood_unit.validate(now) {
            Err(e) => {
                return Err(e);
            },
            Ok(()) => (),
        }
        proof {
            assert(blood_unit@ =~= spec_registered_unit(
                id,
                bank_id,
                blood_type,
                quantity_ml,
                donor_id,
                now,
            ));
        }
        self.units.insert(id, blood_unit);
        append_index(&mut self.blood_type_index, blood_type_key(blood_type), id);
        append_index(&mut self.bank_index, bank_id.0, id);
        append_index(&mut self.status_index, status_key(BloodStatus::Available), id);
        match donor_id {
            Some(d) => append_index(&mut self.donor_index, d.0, id),
            None => (),
        }
        events.push(Event::BloodRegistered(BloodRegisteredEvent {
            blood_unit_id: id,
            bank_id,
            blood_type,
            quantity_ml,
            expiration_timestamp,
            registered_at: now,
        }));
        proof {
            lemma_push_contains_last(old(self).spec_type_index(blood_type), id);
            lemma_push_contains_last(old(self).spec_bank_index(bank_id), id);
            if let Some(d) = donor_id {
                lemma_push_contains_last(old(self).spec_donor_index(d), id);
            }
            assert forall|id2: u64| self.units@.contains_key(id2) && id2 != id implies {
                &&& self.spec_type_index(self.units@[id2].blood_type).contains(id2)
                &&& self.spec_bank_index(self.units@[id2].bank_id).contains(id2)
                &&& match self.units@[id2].donor_id {
                    Some(d) => self.spec_donor_index(d).contains(id2),
                    None => true,
                }
            } by {
                let u2 = self.units@[id2];
                if u2.blood_type == blood_type {
                    lemma_push_preserves_contains(
                        old(self).spec_type_index(blood_type),
                        id,
                        id2,
                    );
                }
                if u2.bank_id == bank_id {
                    lemma_push_preserves_contains(old(self).spec_bank_index(bank_id), id, id2);
                }
                if let Some(d2) = u2.donor_id {
                    if donor_id == Some(d2) {
                        lemma_push_preserves_contains(
                            old(self).spec_donor_index(d2),
                            id,
                            id2,
                        );
                    }
                }
            }
        }
        Ok(id)
    }

    /// Appends one audit record with a freshly allocated sequential identity
    /// and bumps the unit's change counter.
    fn record_status_change(
        &mut self,
        unit_id: u64,
        from_status: BloodStatus,
        to_status: BloodStatus,
        authorized_by: AccountId,
        reason: Option<String>,
        now: u64,
    )
        requires
            old(self).history_counter < u64::MAX,
            old(self).spec_change_count(unit_id) < u64::MAX,
            old(self).history_wf(),
        ensures
            final(self).history_wf(),
            final(self).history_counter == old(self).history_counter + 1,
            final(self).spec_history(unit_id).len() == old(self).spec_history(unit_id).len() + 1,
            final(self).spec_history(unit_id).drop_last() == old(self).spec_history(unit_id),
            final(self).spec_history(unit_id).last() == (StatusChangeHistory {
                id: (old(self).history_counter + 1) as u64,
                blood_unit_id: unit_id,
                from_status,
                to_status,
                authorized_by,
                changed_at: now,
                reason,
            }),
            forall|j: u64| j != unit_id ==> final(self).spec_history(j) == old(self).spec_history(
                j,
            ),
            final(self).spec_change_count(unit_id) == old(self).spec_change_count(unit_id) + 1,
            forall|j: u64| j != unit_id ==> final(self).spec_change_count(j) == old(
                self,
            ).spec_change_count(j),
            final(self).units == old(self).units,
            final(self).admin == old(self).admin,
            final(self).authorized_banks == old(self).authorized_banks,
            final(self).unit_counter == old(self).unit_counter,
            final(self).blood_type_index == old(self).blood_type_index,
            final(self).bank_index == old(self).bank_index,
            final(self).status_index == old(self).status_index,
            final(self).donor_index == old(self).donor_index,
    {
        let hid = self.history_counter + 1;
        self.history_counter = hid;
        let entry = StatusChangeHistory {
            id: hid,
            blood_unit_id: unit_id,
            from_status,
            to_status,
            authorized_by,
            changed_at: now,
            reason,
        };
        let ghost previous = self.spec_history(unit_id);
        let mut records: Vec<StatusChangeHistory> = match self.history.get(&unit_id) {
            Some(l) => clone_history_vec(l),
            None => Vec::new(),
        };
        records.push(entry);
        proof {
            assert(records@.drop_last() =~= previous);
        }
        self.history.insert(unit_id, records);
        let count: u64 = match self.change_counts.get(&unit_id) {
            Some(c) => *c,
            None => 0,
        };
        self.change_counts.insert(unit_id, count + 1);
        proof {
            assert forall|id2: u64| self.history@.contains_key(id2) implies {
                let h = self.history@[id2]@;
                &&& forall|i: int| 0 <= i < h.len() ==> (#[trigger] h[i]).blood_unit_id == id2
                    && 1 <= h[i].id <= self.history_counter
                &&& forall|i: int, j: int| 0 <= i < j < h.len() ==> h[i].id < h[j].id
            } by {
                let h = self.history@[id2]@;
                if id2 == unit_id {
                    assert(h == previous.push(entry));
                    assert forall|i: int| 0 <= i < h.len() implies (#[trigger] h[i]).blood_unit_id
                        == id2 && 1 <= h[i].id <= self.history_counter by {
                        if i < h.len() - 1 {
                            assert(h[i] == previous[i]);
                            assert(old(self).spec_history(unit_id) == previous);
                        } else {
                            assert(h[i] == entry);
                        }
                    }
                    assert forall|i: int, j: int| 0 <= i < j < h.len() implies h[i].id
                        < h[j].id by {
                        if j < h.len() - 1 {
                            assert(h[i] == previous[i] && h[j] == previous[j]);
                        } else {
                            assert(h[i] == previous[i] && h[j] == entry);
                        }
                    }
                } else {
                    assert(h == old(self).history@[id2]@);
                }
            }
        }
    }

    /// Applies one status transition: rejects an unauthorized caller, a
    /// missing unit, a unit whose expiration has already passed (expiry
    /// pre-empts all other transition logic), and an illegal transition
    /// (recording a diagnostic notification alongside that rejection); on
    /// success overwrites the status, appends one audit record, bumps the
    /// change counter, emits a status-change notification, and returns the
    /// updated record. A rejected call leaves the state exactly as it was.
    pub fn update_status(
        &mut self,
        events: &mut Vec<Event>,
        unit_id: u64,
        new_status: BloodStatus,
        authorized_by: AccountId,
        reason: Option<String>,
        now: u64,
    ) -> (r: Result<BloodUnit, ContractError>)
        requires
            old(self).wf(),
            old(self).history_wf(),
            old(self).is_initialized(),
            old(self).history_counter < u64::MAX,
            old(self).spec_change_count(unit_id) < u64::MAX,
        ensures
            final(self).wf(),
            final(self).history_wf(),
            update_status_post(
                *old(self),
                *final(self),
                old(events)@,
                final(events)@,
                unit_id,
                new_status,
                authorized_by,
                opt_string_view(reason),
                now,
                r,
            ),
    {
        let admin_ok = match &self.admin {
            Some(a) => *a == authorized_by,
            None => false,
        };
        if !admin_ok {
            return Err(ContractError::Unauthorized);
        }
        let unit = match self.units.get(&unit_id) {
            None => {
                return Err(ContractError::NotFound);
            },
            Some(u) => u,
        };
        if unit.is_expired(now) {
            return Err(ContractError::BloodUnitExpired);
        }
        let old_status = unit.status;
        if !is_valid_transition(&old_status, &new_status) {
            events.push(Event::InvalidTransition(InvalidTransitionEvent {
                blood_unit_id: unit_id,
                from_status: old_status,
                to_status: new_status,
            }));
            return Err(ContractError::InvalidStatusTransition);
        }
        let mut updated = unit.clone();
        updated.status = new_status;
        let result_unit = updated.clone();
        self.units.insert(unit_id, updated);
        self.record_status_change(
            unit_id,
            old_status,
            new_status,
            authorized_by,
            clone_opt_string(&reason),
            now,
        );
        events.push(Event::StatusChanged(StatusChangeEvent {
            blood_unit_id: unit_id,
            from_status: old_status,
            to_status: new_status,
            authorized_by,
            changed_at: now,
            reason,
        }));
        proof {
            assert(events@.drop_last() =~= old(events)@);
        }
        Ok(result_unit)
    }

    /// Convenience wrapper: transition to `Delivered` with the delivery
    /// location as the recorded reason.
    pub fn mark_delivered(
        &mut self,
        events: &mut Vec<Event>,
        unit_id: u64,
        authorized_by: AccountId,
        delivery_location: String,
        now: u64,
    ) -> (r: Result<BloodUnit, ContractError>)
        requires
            old(self).wf(),
            old(self).history_wf(),
            old(self).is_initialized(),
            old(self).history_counter < u64::MAX,
            old(self).spec_change_count(unit_id) < u64::MAX,
        ensures
            final(self).wf(),
            final(self).history_wf(),
            update_status_post(
                *old(self),
                *final(self),
                old(events)@,
                final(events)@,
                unit_id,
                BloodStatus::Delivered,
                authorized_by,
                Some(delivery_location@),
                now,
                r,
            ),
    {
        self.update_status(
            events,
            unit_id,
            BloodStatus::Delivered,
            authorized_by,
            Some(delivery_location),
            now,
        )
    }

    /// Convenience wrapper: transition to `Expired` with a fixed reason.
    pub fn mark_expired(
        &mut self,
        events: &mut Vec<Event>,
        unit_id: u64,
        authorized_by: AccountId,
        now: u64,
    ) -> (r: Result<BloodUnit, ContractError>)
        requires
            old(self).wf(),
            old(self).history_wf(),
            old(self).is_initialized(),
            old(self).history_counter < u64::MAX,
            old(self).spec_change_count(unit_id) < u64::MAX,
        ensures
            final(self).wf(),
            final(self).history_wf(),
            update_status_post(
                *old(self),
                *final(self),
                old(events)@,
                final(events)@,
                unit_id,
                BloodStatus::Expired,
                authorized_by,
                Some("Marked as expired"@),
                now,
                r,
            ),
    {
        let reason: String = "Marked as expired".to_owned();
        self.update_status(
            events,
            unit_id,
            BloodStatus::Expired,
            authorized_by,
            Some(reason),
            now,
        )
    }

    /// Applies the single-transition logic sequentially to an ordered list of
    /// identities. The batch is atomic: if any unit fails (missing, expired,
    /// or an illegal transition), the whole operation fails with that error
    /// and the state is left exactly as it was — no partial count and no
    /// partial update is ever observable. An illegal transition still records
    /// its diagnostic notification alongside the rejection. On success the
    /// count of updated units (the input length) is returned.
    #[verifier::loop_isolation(false)]
    pub fn batch_update_status(
        &mut self,
        events: &mut Vec<Event>,
        unit_ids: &Vec<u64>,
        new_status: BloodStatus,
        authorized_by: AccountId,
        reason: Option<String>,
        now: u64,
    ) -> (r: Result<u64, ContractError>)
        requires
            old(self).wf(),
            old(self).history_wf(),
            old(self).is_initialized(),
            old(self).history_counter + unit_ids@.len() <= u64::MAX,
            forall|i: int| 0 <= i < unit_ids@.len() ==> old(self).spec_change_count(
                #[trigger] unit_ids@[i],
            ) + unit_ids@.len() <= u64::MAX,
        ensures
            final(self).wf(),
            final(self).history_wf(),
            old(self).admin != Some(authorized_by) ==> r == Err::<u64, ContractError>(
                ContractError::Unauthorized,
            ) && *final(self) == *old(self) && *final(events) == *old(events),
            old(self).admin == Some(authorized_by) ==> match batch_sim(
                old(self).units_model(),
                unit_ids@,
                new_status,
                now,
            ) {
                BatchOutcome::Rejected(e, diag) => {
                    &&& r == Err::<u64, ContractError>(e)
                    &&& *final(self) == *old(self)
                    &&& match diag {
                        Some(d) => final(events)@ == old(events)@.push(
                            Event::InvalidTransition(d),
                        ),
                        None => *final(events) == *old(events),
                    }
                },
                BatchOutcome::Applied(m1) => {
                    &&& r == Ok::<u64, ContractError>(unit_ids@.len() as u64)
                    &&& final(self).units_model() == m1
                    &&& forall|i: int| 0 <= i < unit_ids@.len() ==> ({
                        let uid = #[trigger] unit_ids@[i];
                        &&& final(self).spec_history(uid).len() == old(self).spec_history(
                            uid,
                        ).len() + 1
                        &&& final(self).spec_history(uid).drop_last() == old(self).spec_history(
                            uid,
                        )
                        &&& history_entry_matches(
                            final(self).spec_history(uid).last(),
                            (old(self).history_counter + i + 1) as u64,
                            uid,
                            old(self).units_model()[uid].status,
                            new_status,
                            authorized_by,
                            now,
                            opt_string_view(reason),
                        )
                        &&& final(self).spec_change_count(uid) == old(self).spec_change_count(uid)
                            + 1
                    })
                    &&& forall|j: u64| !unit_ids@.contains(j) ==> final(self).spec_history(j)
                        == old(self).spec_history(j) && final(self).spec_change_count(j) == old(
                        self,
                    ).spec_change_count(j) && final(self).spec_unit(j) == old(self).spec_unit(j)
                    &&& final(self).history_counter == old(self).history_counter
                        + unit_ids@.len()
                    &&& final(self).blood_type_index == old(self).blood_type_index
                    &&& final(self).bank_index == old(self).bank_index
                    &&& final(self).status_index == old(self).status_index
                    &&& final(self).donor_index == old(self).donor_index
                    &&& final(self).admin == old(self).admin
                    &&& final(self).authorized_banks == old(self).authorized_banks
                    &&& final(self).unit_counter == old(self).unit_counter
                    &&& final(events)@.len() == old(events)@.len() + unit_ids@.len()
                    &&& forall|t: int| 0 <= t < old(events)@.len() ==> final(events)@[t] == old(
                        events,
                    )@[t]
                    &&& forall|i: int| 0 <= i < unit_ids@.len() ==> status_event_matches(
                        final(events)@[old(events)@.len() + i],
                        unit_ids@[i],
                        old(self).units_model()[unit_ids@[i]].status,
                        new_status,
                        authorized_by,
                        now,
                        opt_string_view(reason),
                    )
                },
            },
    {
        let admin_ok = match &self.admin {
            Some(a) => *a == authorized_by,
            None => false,
        };
        if !admin_ok {
            return Err(ContractError::Unauthorized);
        }
        let ghost m0 = self.units_model();

        // Validation pass: simulate every step without mutating anything, so
        // that a failure anywhere leaves no trace in the persisted state.
        let mut seen: HashSet<u64> = HashSet::new();
        let mut froms: Vec<BloodStatus> = Vec::new();
        let mut i: usize = 0;
        proof {
            assert(unit_ids@.take(0) =~= Seq::<u64>::empty());
            assert(statuses_overwritten(m0, seen@, new_status) =~= m0);
        }
        while i < unit_ids.len()
            invariant
                i <= unit_ids@.len(),
                *events == *old(events),
                froms@.len() == i as int,
                unit_ids@.take(i as int).no_duplicates(),
                forall|x: u64| seen@.contains(x) <==> unit_ids@.take(i as int).contains(x),
                forall|t: int| 0 <= t < i ==> m0.contains_key(#[trigger] unit_ids@[t])
                    && froms@[t] == m0[unit_ids@[t]].status,
                batch_sim(m0, unit_ids@.take(i as int), new_status, now) == BatchOutcome::Applied(
                    statuses_overwritten(m0, seen@, new_status),
                ),
            decreases unit_ids@.len() - i,
        {
            let id = unit_ids[i];
            let ghost sim = statuses_overwritten(m0, seen@, new_status);
            proof {
                lemma_batch_sim_snoc(m0, unit_ids@.take(i as int), id, new_status, now);
                assert(unit_ids@.take(i as int + 1) =~= unit_ids@.take(i as int).push(id));
            }
            let in_seen = seen.contains(&id);
            let from = match self.units.get(&id) {
                None => {
                    proof {
                        lemma_batch_sim_prefix_rejected(
                            m0,
                            unit_ids@,
                            i as int + 1,
                            new_status,
                            now,
                        );
                    }
                    return Err(ContractError::NotFound);
                },
                Some(u) => {
                    if u.is_expired(now) {
                        proof {
                            lemma_batch_sim_prefix_rejected(
                                m0,
                                unit_ids@,
                                i as int + 1,
                                new_status,
                                now,
                            );
                        }
                        return Err(ContractError::BloodUnitExpired);
                    }
                    if in_seen {
                        new_status
                    } else {
                        u.status
                    }
                },
            };
            if !is_valid_transition(&from, &new_status) {
                proof {
                    assert(sim[id].status == from);
                    lemma_batch_sim_prefix_rejected(m0, unit_ids@, i as int + 1, new_status, now);
                }
                events.push(Event::InvalidTransition(InvalidTransitionEvent {
                    blood_unit_id: id,
                    from_status: from,
                    to_status: new_status,
                }));
                return Err(ContractError::InvalidStatusTransition);
            }
            proof {
                // A repeated identity would be a self-transition by now, so
                // legality implies this identity is fresh in the batch.
                assert(!in_seen);
                assert(statuses_overwritten(m0, seen@.insert(id), new_status) =~= sim.insert(
                    id,
                    BloodUnitView { status: new_status, ..sim[id] },
                ));
            }
            seen.insert(id);
            froms.push(from);
            proof {
                let pre = unit_ids@.take(i as int);
                let ext = unit_ids@.take(i as int + 1);
                assert(ext =~= pre.push(id));
                assert forall|x: u64| seen@.contains(x) implies ext.contains(x) by {
                    if x == id {
                        assert(ext[i as int] == id);
                    } else {
                        let t = choose|t: int| 0 <= t < pre.len() && pre[t] == x;
                        assert(ext[t] == x);
                    }
                }
                assert forall|x: u64| ext.contains(x) implies seen@.contains(x) by {
                    let t = choose|t: int| 0 <= t < ext.len() && ext[t] == x;
                    if t < i as int {
                        assert(pre[t] == x);
                    }
                }
            }
            i = i + 1;
        }
        proof {
            assert(unit_ids@.take(i as int) =~= unit_ids@);
        }

        // Commit pass: every step is now known to be legal, so apply them in
        // order, recording one audit entry and one notification per unit.
        let ghost m_full = statuses_overwritten(m0, seen@, new_status);
        let mut k: usize = 0;
        while k < unit_ids.len()
            invariant
                k <= unit_ids@.len(),
                self.admin == old(self).admin,
                self.authorized_banks == old(self).authorized_banks,
                self.unit_counter == old(self).unit_counter,
                self.blood_type_index == old(self).blood_type_index,
                self.bank_index == old(self).bank_index,
                self.status_index == old(self).status_index,
                self.donor_index == old(self).donor_index,
                self.wf(),
                self.history_wf(),
                self.history_counter == old(self).history_counter + k,
                forall|j: u64| self.units@.contains_key(j) <==> m0.contains_key(j),
                forall|j: u64| m0.contains_key(j) && !unit_ids@.take(k as int).contains(j)
                    ==> #[trigger] self.units_model()[j] == m0[j],
                forall|t: int| 0 <= t < k ==> #[trigger] self.units_model()[unit_ids@[t]]
                    == (BloodUnitView { status: new_status, ..m0[unit_ids@[t]] }),
                forall|j: u64| !unit_ids@.take(k as int).contains(j) ==> self.spec_history(j)
                    == old(self).spec_history(j) && self.spec_change_count(j) == old(
                    self,
                ).spec_change_count(j),
                forall|t: int| 0 <= t < k ==> ({
                    let uid = #[trigger] unit_ids@[t];
                    &&& self.spec_history(uid).len() == old(self).spec_history(uid).len() + 1
                    &&& self.spec_history(uid).drop_last() == old(self).spec_history(uid)
                    &&& history_entry_matches(
                        self.spec_history(uid).last(),
                        (old(self).history_counter + t + 1) as u64,
                        uid,
                        m0[uid].status,
                        new_status,
                        authorized_by,
                        now,
                        opt_string_view(reason),
                    )
                    &&& self.spec_change_count(uid) == old(self).spec_change_count(uid) + 1
                }),
                events@.len() == old(events)@.len() + k,
                forall|t: int| 0 <= t < old(events)@.len() ==> events@[t] == old(events)@[t],
                forall|t: int| 0 <= t < k ==> status_event_matches(
                    events@[old(events)@.len() + t],
                    unit_ids@[t],
                    m0[unit_ids@[t]].status,
                    new_status,
                    authorized_by,
                    now,
                    opt_string_view(reason),
                ),
            decreases unit_ids@.len() - k,
        {
            let id = unit_ids[k];
            let from = froms[k];
            proof {
                assert(unit_ids@.take(i as int).contains(id) ==> seen@.contains(id));
                assert(!unit_ids@.take(k as int).contains(id));
            }
            let u = match self.units.get(&id) {
                Some(u) => u,
                None => {
                    proof {
                        assert(false);
                    }
                    return Err(ContractError::NotFound);
                },
            };
            proof {
                assert(old(self).spec_change_count(unit_ids@[k as int]) + unit_ids@.len()
                    <= u64::MAX);
                assert(self.spec_change_count(id) == old(self).spec_change_count(id));
            }
            let ghost pre_model = self.units_model();
            proof {
                assert(m0.contains_key(unit_ids@[k as int]));
                assert(pre_model[id] == m0[id]);
                assert(u@ == pre_model[id]);
            }
            let mut updated = u.clone();
            updated.status = new_status;
            self.units.insert(id, updated);
            proof {
                assert(updated@ == (BloodUnitView { status: new_status, ..m0[id] }));
                assert(self.units_model() =~= pre_model.insert(id, updated@));
            }
            self.record_status_change(
                id,
                from,
                new_status,
                authorized_by,
                clone_opt_string(&reason),
                now,
            );
            events.push(Event::StatusChanged(StatusChangeEvent {
                blood_unit_id: id,
                from_status: from,
                to_status: new_status,
                authorized_by,
                changed_at: now,
                reason: clone_opt_string(&reason),
            }));
            proof {
                assert(unit_ids@.take(k as int + 1) =~= unit_ids@.take(k as int).push(id));
            }
            k = k + 1;
        }
        proof {
            assert(unit_ids@.take(k as int) =~= unit_ids@);
            assert(self.units_model() =~= m_full);
            assert(batch_sim(m0, unit_ids@, new_status, now) == BatchOutcome::Applied(m_full));
            assert forall|j: u64| !unit_ids@.contains(j) implies self.spec_unit(j) == old(
                self,
            ).spec_unit(j) by {
                if m0.contains_key(j) {
                    assert(self.units_model()[j] == m0[j]);
                }
            }
        }
        Ok(unit_ids.len() as u64)
    }

    /// The ordered audit trail of `unit_id`, empty if it never changed.
    pub fn get_status_history(&self, unit_id: u64) -> (r: Vec<StatusChangeHistory>)
        ensures
            r@ == self.spec_history(unit_id),
    {
        match self.history.get(&unit_id) {
            Some(l) => clone_history_vec(l),
            None => Vec::new(),
        }
    }

    /// How many transitions `unit_id` has undergone, zero if none.
    pub fn get_status_change_count(&self, unit_id: u64) -> (r: u64)
        ensures
            r == self.spec_change_count(unit_id),
    {
        match self.change_counts.get(&unit_id) {
            Some(c) => *c,
            None => 0,
        }
    }

    /// Looks a unit up by identity; pure, no side effects.
    pub fn get_blood_unit(&self, blood_unit_id: u64) -> (r: Result<BloodUnit, ContractError>)
        ensures
            match self.spec_unit(blood_unit_id) {
                Some(u) => r matches Ok(ru) && ru@ == u,
                None => r == Err::<BloodUnit, ContractError>(ContractError::NotFound),
            },
    {
        match self.units.get(&blood_unit_id) {
            Some(u) => Ok(u.clone()),
            None => Err(ContractError::NotFound),
        }
    }
}

/// The record a successful registration with these arguments stores: both
/// timestamps derive from the ledger clock, the status starts `Available`,
/// and the metadata starts empty.
pub open spec fn spec_registered_unit(
    id: u64,
    bank_id: AccountId,
    blood_type: BloodType,
    quantity_ml: u32,
    donor_id: Option<AccountId>,
    now: u64,
) -> BloodUnitView {
    BloodUnitView {
        id,
        blood_type,
        quantity_ml,
        bank_id,
        donor_id,
        donation_timestamp: now,
        expiration_timestamp: (now + SHELF_LIFE_SECONDS) as u64,
        status: BloodStatus::Available,
        metadata: Seq::empty(),
    }
}

/// The notification a successful registration with these arguments emits.
pub open spec fn spec_registration_event(
    id: u64,
    bank_id: AccountId,
    blood_type: BloodType,
    quantity_ml: u32,
    now: u64,
) -> Event {
    Event::BloodRegistered(
        (BloodRegisteredEvent {
            blood_unit_id: id,
            bank_id,
            blood_type,
            quantity_ml,
            expiration_timestamp: (now + SHELF_LIFE_SECONDS) as u64,
            registered_at: now,
        }),
    )
}

/// The full relation between the states and event sequences before and after
/// a status-transition operation, its arguments, and its result.
///
/// Expiry pre-empts everything but authorization and existence: an expired
/// unit is rejected even where the requested transition would otherwise be
/// legal. An illegal transition is both rejected and recorded: the diagnostic
/// notification is appended although the state is left unchanged.
pub open spec fn update_status_post(
    pre: InventoryContract,
    post: InventoryContract,
    pre_events: Seq<Event>,
    post_events: Seq<Event>,
    unit_id: u64,
    new_status: BloodStatus,
    authorized_by: AccountId,
    reason: Option<Seq<char>>,
    now: u64,
    r: Result<BloodUnit, ContractError>,
) -> bool {
    if pre.admin != Some(authorized_by) {
        r == Err::<BloodUnit, ContractError>(ContractError::Unauthorized) && post == pre
            && post_events == pre_events
    } else {
        match pre.spec_unit(unit_id) {
            None => r == Err::<BloodUnit, ContractError>(ContractError::NotFound) && post == pre
                && post_events == pre_events,
            Some(u0) => if spec_is_expired(u0, now) {
                r == Err::<BloodUnit, ContractError>(ContractError::BloodUnitExpired) && post
                    == pre && post_events == pre_events
            } else if !transition_allowed(u0.status, new_status) {
                r == Err::<BloodUnit, ContractError>(ContractError::InvalidStatusTransition)
                    && post == pre && post_events == pre_events.push(
                    Event::InvalidTransition(
                        (InvalidTransitionEvent {
                            blood_unit_id: unit_id,
                            from_status: u0.status,
                            to_status: new_status,
                        }),
                    ),
                )
            } else {
                let u1 = BloodUnitView { status: new_status, ..u0 };
                &&& r matches Ok(ru) && ru@ == u1
                &&& post.spec_unit(unit_id) == Some(u1)
                &&& forall|j: u64| j != unit_id ==> post.spec_unit(j) == pre.spec_unit(j)
                &&& post.spec_history(unit_id).len() == pre.spec_history(unit_id).len() + 1
                &&& post.spec_history(unit_id).drop_last() == pre.spec_history(unit_id)
                &&& history_entry_matches(
                    post.spec_history(unit_id).last(),
                    (pre.history_counter + 1) as u64,
                    unit_id,
                    u0.status,
                    new_status,
                    authorized_by,
                    now,
                    reason,
                )
                &&& forall|j: u64| j != unit_id ==> post.spec_history(j) == pre.spec_history(j)
                &&& post.history_counter == pre.history_counter + 1
                &&& post.spec_change_count(unit_id) == pre.spec_change_count(unit_id) + 1
                &&& forall|j: u64| j != unit_id ==> post.spec_change_count(j)
                    == pre.spec_change_count(j)
                &&& post.blood_type_index == pre.blood_type_index
                &&& post.bank_index == pre.bank_index
                &&& post.status_index == pre.status_index
                &&& post.donor_index == pre.donor_index
                &&& post.admin == pre.admin
                &&& post.authorized_banks == pre.authorized_banks
                &&& post.unit_counter == pre.unit_counter
                &&& post_events.len() == pre_events.len() + 1
                &&& post_events.drop_last() == pre_events
                &&& status_event_matches(
                    post_events.last(),
                    unit_id,
                    u0.status,
                    new_status,
                    authorized_by,
                    now,
                    reason,
                )
            },
        }
    }
}

/// A batch status-update request: the ordered unit identities, the status
/// they should all move to, and an optional shared reason.
#[derive(Debug)]
pub struct BatchStatusUpdate {
    pub blood_unit_ids: Vec<u64>,
    pub new_status: BloodStatus,
    pub reason: Option<String>,
}

/// Outcome of simulating a batch of transitions sequentially.
pub enum BatchOutcome {
    /// Every step was legal; the unit records as the batch leaves them.
    Applied(Map<u64, BloodUnitView>),
    /// A step failed with this error; for an illegal transition, the
    /// diagnostic that is recorded alongside the rejection.
    Rejected(ContractError, Option<InvalidTransitionEvent>),
}

/// Sequential simulation of a batch of transitions over the unit records:
/// each step loads the unit as the steps before it left it, rejects a missing
/// or expired unit or an illegal transition (the first failure decides the
/// whole batch), and otherwise overwrites the status.
pub open spec fn batch_sim(
    m: Map<u64, BloodUnitView>,
    ids: Seq<u64>,
    new_status: BloodStatus,
    now: u64,
) -> BatchOutcome
    decreases ids.len(),
{
    if ids.len() == 0 {
        BatchOutcome::Applied(m)
    } else {
        let id = ids[0];
        if !m.contains_key(id) {
            BatchOutcome::Rejected(ContractError::NotFound, None)
        } else if spec_is_expired(m[id], now) {
            BatchOutcome::Rejected(ContractError::BloodUnitExpired, None)
        } else if !transition_allowed(m[id].status, new_status) {
            BatchOutcome::Rejected(
                ContractError::InvalidStatusTransition,
                Some(
                    (InvalidTransitionEvent {
                        blood_unit_id: id,
                        from_status: m[id].status,
                        to_status: new_status,
                    }),
                ),
            )
        } else {
            batch_sim(
                m.insert(id, BloodUnitView { status: new_status, ..m[id] }),
                ids.drop_first(),
                new_status,
                now,
            )
        }
    }
}

/// The unit records with the statuses of every identity in `touched`
/// overwritten by `new_status`.
pub open spec fn statuses_overwritten(
    m: Map<u64, BloodUnitView>,
    touched: Set<u64>,
    new_status: BloodStatus,
) -> Map<u64, BloodUnitView> {
    Map::new(
        |id: u64| m.contains_key(id),
        |id: u64|
            if touched.contains(id) {
                BloodUnitView { status: new_status, ..m[id] }
            } else {
                m[id]
            },
    )
}

/// Unfolds the batch simulation over one more trailing identity.
pub proof fn lemma_batch_sim_snoc(
    m: Map<u64, BloodUnitView>,
    ids: Seq<u64>,
    x: u64,
    new_status: BloodStatus,
    now: u64,
)
    ensures
        batch_sim(m, ids.push(x), new_status, now) == (match batch_sim(m, ids, new_status, now) {
            BatchOutcome::Applied(m1) => if !m1.contains_key(x) {
                BatchOutcome::Rejected(ContractError::NotFound, None)
            } else if spec_is_expired(m1[x], now) {
                BatchOutcome::Rejected(ContractError::BloodUnitExpired, None)
            } else if !transition_allowed(m1[x].status, new_status) {
                BatchOutcome::Rejected(
                    ContractError::InvalidStatusTransition,
                    Some(
                        (InvalidTransitionEvent {
                            blood_unit_id: x,
                            from_status: m1[x].status,
                            to_status: new_status,
                        }),
                    ),
                )
            } else {
                BatchOutcome::Applied(m1.insert(x, BloodUnitView { status: new_status, ..m1[x] }))
            },
            BatchOutcome::Rejected(e, d) => BatchOutcome::Rejected(e, d),
        }),
    decreases ids.len(),
{
    reveal_with_fuel(batch_sim, 3);
    if ids.len() == 0 {
        assert(ids.push(x)[0] == x);
        assert(ids.push(x).drop_first() =~= Seq::<u64>::empty());
    } else {
        assert(ids.push(x)[0] == ids[0]);
        assert(ids.push(x).drop_first() =~= ids.drop_first().push(x));
        let id = ids[0];
        if m.contains_key(id) && !spec_is_expired(m[id], now) && transition_allowed(
            m[id].status,
            new_status,
        ) {
            lemma_batch_sim_snoc(
                m.insert(id, BloodUnitView { status: new_status, ..m[id] }),
                ids.drop_first(),
                x,
                new_status,
                now,
            );
        }
    }
}

/// A failure within a prefix decides the simulation of the whole sequence.
pub proof fn lemma_batch_sim_prefix_rejected(
    m: Map<u64, BloodUnitView>,
    ids: Seq<u64>,
    i: int,
    new_status: BloodStatus,
    now: u64,
)
    requires
        0 <= i <= ids.len(),
        batch_sim(m, ids.take(i), new_status, now) is Rejected,
    ensures
        batch_sim(m, ids, new_status, now) == batch_sim(m, ids.take(i), new_status, now),
    decreases ids.len() - i,
{
    if i < ids.len() {
        lemma_batch_sim_snoc(m, ids.take(i), ids[i], new_status, now);
        assert(ids.take(i + 1) =~= ids.take(i).push(ids[i]));
        lemma_batch_sim_prefix_rejected(m, ids, i + 1, new_status, now);
    } else {
        assert(ids.take(i) =~= ids);
    }
}

/// An identity already listed in an index stays listed when another one is
/// appended.
proof fn lemma_push_preserves_contains(s: Seq<u64>, x: u64, y: u64)
    requires
        s.contains(y),
    ensures
        s.push(x).contains(y),
{
    let t = choose|t: int| 0 <= t < s.len() && s[t] == y;
    assert(s.push(x)[t] == y);
}

/// An appended identity is listed.
proof fn lemma_push_contains_last(s: Seq<u64>, x: u64)
    ensures
        s.push(x).contains(x),
{
    assert(s.push(x)[s.len() as int] == x);
}

/// The no-duplicate-identity guarantee behind the defensive existence check:
/// in a well-formed store, the identity the counter would generate next is
/// never already occupied, so registration's compare-and-set can never find
/// the slot taken.
pub proof fn lemma_fresh_id_no_collision(s: InventoryContract)
    requires
        s.wf(),
        s.unit_counter < u64::MAX,
    ensures
        !s.units@.contains_key((s.unit_counter + 1) as u64),
{
}

/// A unit registered at ledger time `now` carries exactly the attributes it
/// was registered with, and its expiration timestamp exceeds its donation
/// timestamp by exactly the fixed shelf-life constant.
pub proof fn lemma_registered_unit_attributes(
    id: u64,
    bank_id: AccountId,
    blood_type: BloodType,
    quantity_ml: u32,
    donor_id: Option<AccountId>,
    now: u64,
)
    requires
        now <= u64::MAX - SHELF_LIFE_SECONDS,
    ensures
        ({
            let u = spec_registered_unit(id, bank_id, blood_type, quantity_ml, donor_id, now);
            &&& u.id == id
            &&& u.bank_id == bank_id
            &&& u.blood_type == blood_type
            &&& u.quantity_ml == quantity_ml
            &&& u.donor_id == donor_id
            &&& u.donation_timestamp == now
            &&& u.expiration_timestamp - u.donation_timestamp == SHELF_LIFE_SECONDS
            &&& u.status is Available
            &&& u.metadata.len() == 0
        }),
{
}

} // verus!
