//! The append-only audit trail of status changes.

use vstd::prelude::*;

use crate::account::AccountId;
use crate::events::opt_string_view;
use crate::status::BloodStatus;

verus! {

/// One historical record of an applied status change.
///
/// Records are appended in application order and never mutated or pruned.
#[derive(Debug)]
pub struct StatusChangeHistory {
    /// Sequential identity of this record, unique across all units.
    pub id: u64,
    pub blood_unit_id: u64,
    pub from_status: BloodStatus,
    pub to_status: BloodStatus,
    pub authorized_by: AccountId,
    /// Ledger time at which the change was applied.
    pub changed_at: u64,
    /// Optional free-text reason for the change.
    pub reason: Option<String>,
}

/// Copies an optional free-text reason.
pub fn clone_opt_string(s: &Option<String>) -> (r: Option<String>)
    ensures
        r == *s,
{
    match s {
        Some(x) => Some(x.clone()),
        None => None,
    }
}

impl Clone for StatusChangeHistory {
    fn clone(&self) -> (r: Self)
        ensures
            r == *self,
    {
        StatusChangeHistory {
            id: self.id,
            blood_unit_id: self.blood_unit_id,
            from_status: self.from_status,
            to_status: self.to_status,
            authorized_by: self.authorized_by,
            changed_at: self.changed_at,
            reason: clone_opt_string(&self.reason),
        }
    }
}

/// Whether `h` is the audit record with the given content.
pub open spec fn history_entry_matches(
    h: StatusChangeHistory,
    id: u64,
    blood_unit_id: u64,
    from_status: BloodStatus,
    to_status: BloodStatus,
    authorized_by: AccountId,
    changed_at: u64,
    reason: Option<Seq<char>>,
) -> bool {
    &&& h.id == id
    &&& h.blood_unit_id == blood_unit_id
    &&& h.from_status == from_status
    &&& h.to_status == to_status
    &&& h.authorized_by == authorized_by
    &&& h.changed_at == changed_at
    &&& opt_string_view(h.reason) == reason
}

} // verus!
