//! Notifications emitted by inventory operations.
//!
//! Operations take a `&mut Vec<Event>` sink and append to it; diagnostics are
//! appended alongside error returns, never instead of them.

use vstd::prelude::*;

use crate::account::AccountId;
use crate::status::{BloodStatus, BloodType};

verus! {

/// Notification of a successful blood-unit registration.
#[derive(Debug)]
pub struct BloodRegisteredEvent {
    pub blood_unit_id: u64,
    pub bank_id: AccountId,
    pub blood_type: BloodType,
    pub quantity_ml: u32,
    pub expiration_timestamp: u64,
    pub registered_at: u64,
}

/// Notification of an applied status change.
#[derive(Debug)]
pub struct StatusChangeEvent {
    pub blood_unit_id: u64,
    pub from_status: BloodStatus,
    pub to_status: BloodStatus,
    pub authorized_by: AccountId,
    pub changed_at: u64,
    pub reason: Option<String>,
}

/// Diagnostic recorded when a requested transition is rejected as illegal,
/// carrying both statuses for debuggability.
#[derive(Clone, Copy, Debug, PartialEq, Eq, Structural)]
pub struct InvalidTransitionEvent {
    pub blood_unit_id: u64,
    pub from_status: BloodStatus,
    pub to_status: BloodStatus,
}

/// One notification emitted by an inventory operation.
#[derive(Debug)]
pub enum Event {
    BloodRegistered(BloodRegisteredEvent),
    StatusChanged(StatusChangeEvent),
    InvalidTransition(InvalidTransitionEvent),
}

/// The optional free-text reason as a mathematical value.
pub open spec fn opt_string_view(r: Option<String>) -> Option<Seq<char>> {
    match r {
        Some(s) => Some(s@),
        None => None,
    }
}

/// Whether `ev` is the status-change notification with the given content.
pub open spec fn status_event_matches(
    ev: Event,
    blood_unit_id: u64,
    from_status: BloodStatus,
    to_status: BloodStatus,
    authorized_by: AccountId,
    changed_at: u64,
    reason: Option<Seq<char>>,
) -> bool {
    &&& ev matches Event::StatusChanged(e)
    &&& e.blood_unit_id == blood_unit_id
    &&& e.from_status == from_status
    &&& e.to_status == to_status
    &&& e.authorized_by == authorized_by
    &&& e.changed_at == changed_at
    &&& opt_string_view(e.reason) == reason
}

} // verus!
