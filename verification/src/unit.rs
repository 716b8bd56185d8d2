//! The blood-unit record and its validity rules.

use vstd::prelude::*;

use crate::account::AccountId;
use crate::errors::ContractError;
use crate::status::{BloodStatus, BloodType};

verus! {

/// Shelf life of whole blood, in days.
pub const BLOOD_SHELF_LIFE_DAYS: u64 = 42;

pub const SECONDS_PER_DAY: u64 = 86400;

/// The fixed shelf-life window: a unit's expiration timestamp is always its
/// donation timestamp plus this constant.
pub const SHELF_LIFE_SECONDS: u64 = BLOOD_SHELF_LIFE_DAYS * SECONDS_PER_DAY;

/// Tolerated clock skew: a donation timestamp may lie at most this far ahead
/// of the clock at validation time.
pub const CLOCK_SKEW_SECONDS: u64 = 3600;

/// Smallest acceptable quantity of a unit, in milliliters.
pub const QUANTITY_MIN_ML: u32 = 100;

/// Largest acceptable quantity of a unit, in milliliters.
pub const QUANTITY_MAX_ML: u32 = 600;

/// One string-keyed entry of a unit's free-form metadata.
#[derive(Debug, PartialEq, Eq)]
pub struct MetaEntry {
    pub key: String,
    pub value: String,
}

impl Clone for MetaEntry {
    fn clone(&self) -> (r: Self)
        ensures
            r == *self,
    {
        MetaEntry { key: self.key.clone(), value: self.value.clone() }
    }
}

/// A tracked quantity of donated blood with its own identity and lifecycle.
///
/// Created by registration, mutated only by status transitions, never
/// deleted.
#[derive(Debug, PartialEq, Eq)]
pub struct BloodUnit {
    /// Identity, assigned once at registration and immutable afterwards.
    pub id: u64,
    pub blood_type: BloodType,
    /// Volume in milliliters, within `QUANTITY_MIN_ML ..= QUANTITY_MAX_ML`.
    pub quantity_ml: u32,
    /// The custodian blood bank.
    pub bank_id: AccountId,
    /// The donor; `None` marks an anonymous donation.
    pub donor_id: Option<AccountId>,
    /// Ledger time at which the donation was collected.
    pub donation_timestamp: u64,
    /// Ledger time at which the unit expires.
    pub expiration_timestamp: u64,
    pub status: BloodStatus,
    /// Free-form extensible metadata.
    pub metadata: Vec<MetaEntry>,
}

/// Mathematical model of a [`BloodUnit`].
pub struct BloodUnitView {
    pub id: u64,
    pub blood_type: BloodType,
    pub quantity_ml: u32,
    pub bank_id: AccountId,
    pub donor_id: Option<AccountId>,
    pub donation_timestamp: u64,
    pub expiration_timestamp: u64,
    pub status: BloodStatus,
    pub metadata: Seq<MetaEntry>,
}

impl View for BloodUnit {
    type V = BloodUnitView;

    open spec fn view(&self) -> BloodUnitView {
        BloodUnitView {
            id: self.id,
            blood_type: self.blood_type,
            quantity_ml: self.quantity_ml,
            bank_id: self.bank_id,
            donor_id: self.donor_id,
            donation_timestamp: self.donation_timestamp,
            expiration_timestamp: self.expiration_timestamp,
            status: self.status,
            metadata: self.metadata@,
        }
    }
}

impl Clone for BloodUnit {
    fn clone(&self) -> (r: Self)
        ensures
            r@ == self@,
    {
        let mut metadata: Vec<MetaEntry> = Vec::new();
        let mut i: usize = 0;
        while i < self.metadata.len()
            invariant
                i <= self.metadata.len(),
                metadata@ == self.metadata@.subrange(0, i as int),
            decreases self.metadata.len() - i,
        {
            metadata.push(self.metadata[i].clone());
            proof {
                assert(metadata@ =~= self.metadata@.subrange(0, i + 1));
            }
            i = i + 1;
        }
        proof {
            assert(metadata@ =~= self.metadata@);
        }
        BloodUnit {
            id: self.id,
            blood_type: self.blood_type,
            quantity_ml: self.quantity_ml,
            bank_id: self.bank_id,
            donor_id: self.donor_id,
            donation_timestamp: self.donation_timestamp,
            expiration_timestamp: self.expiration_timestamp,
            status: self.status,
            metadata,
        }
    }
}

/// The validation verdict over a unit's attributes: quantity in range first,
/// then timestamp ordering, then the clock-skew bound on the donation time.
pub open spec fn spec_validate_unit(u: BloodUnitView, current_time: u64) -> Result<
    (),
    ContractError,
> {
    if u.quantity_ml < QUANTITY_MIN_ML || u.quantity_ml > QUANTITY_MAX_ML {
        Err(ContractError::InvalidQuantity)
    } else if u.expiration_timestamp <= u.donation_timestamp {
        Err(ContractError::InvalidTimestamp)
    } else if u.donation_timestamp > current_time + CLOCK_SKEW_SECONDS {
        Err(ContractError::InvalidTimestamp)
    } else {
        Ok(())
    }
}

/// Whether the unit's expiration time has been reached at `current_time`.
pub open spec fn spec_is_expired(u: BloodUnitView, current_time: u64) -> bool {
    current_time >= u.expiration_timestamp
}

impl BloodUnit {
    /// Checks that the unit's data is consistent: quantity within range,
    /// expiration after donation, donation not further ahead of the clock
    /// than the skew tolerance.
    pub fn validate(&self, current_time: u64) -> (r: Result<(), ContractError>)
        requires
            current_time <= u64::MAX - CLOCK_SKEW_SECONDS,
        ensures
            r == spec_validate_unit(self@, current_time),
    {
        if self.quantity_ml < QUANTITY_MIN_ML || self.quantity_ml > QUANTITY_MAX_ML {
            return Err(ContractError::InvalidQuantity);
        }
        if self.expiration_timestamp <= self.donation_timestamp {
            return Err(ContractError::InvalidTimestamp);
        }
        if self.donation_timestamp > current_time + CLOCK_SKEW_SECONDS {
            return Err(ContractError::InvalidTimestamp);
        }
        Ok(())
    }

    /// Whether the unit is expired at `current_time` (expiry is inclusive:
    /// a unit is expired exactly at its expiration timestamp).
    pub fn is_expired(&self, current_time: u64) -> (r: bool)
        ensures
            r == spec_is_expired(self@, current_time),
    {
        current_time >= self.expiration_timestamp
    }

    /// Remaining shelf life in seconds; negative once the unit has expired.
    pub fn shelf_life_remaining(&self, current_time: u64) -> (r: i64)
        requires
            self.expiration_timestamp <= i64::MAX,
            current_time <= i64::MAX,
        ensures
            r == self.expiration_timestamp - current_time,
    {
        (self.expiration_timestamp as i64) - (current_time as i64)
    }
}

} // verus!
