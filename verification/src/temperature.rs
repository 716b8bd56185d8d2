//! The paginated time-series store for cold-chain temperature readings, and
//! the threshold evaluator.
//!
//! A unit's series spans an unbounded ordered sequence of pages; each page
//! holds up to [`PAGE_SIZE`] readings and carries an explicitly stored length
//! counter, distinct from the physical slot count of its backing vector. The
//! backing vector may be pre-extended with placeholder entries to reach a
//! target write position, so only the first `len` slots are semantically
//! valid and the counter, never the slot count, bounds every iteration.

use vstd::prelude::*;

use std::collections::HashMap;

use crate::account::AccountId;

verus! {

broadcast use vstd::std_specs::hash::group_hash_axioms;

/// Capacity of one page of readings.
pub const PAGE_SIZE: u32 = 20;

/// Error kinds of the temperature operations.
#[derive(Clone, Copy, Debug, PartialEq, Eq, Structural)]
pub enum ContractError {
    Unauthorized,
    UnitNotFound,
    ThresholdNotFound,
    InvalidThreshold,
    AlreadyInitialized,
}

/// One temperature reading, fixed-point in hundredths of a degree; the
/// violation flag is computed against the threshold in effect at write time
/// and frozen.
#[derive(Clone, Copy, Debug, PartialEq, Eq, Structural)]
pub struct TemperatureReading {
    pub temperature_celsius_x100: i32,
    pub timestamp: u64,
    pub is_violation: bool,
}

impl Default for TemperatureReading {
    /// The zero placeholder used to pre-extend a page's backing vector.
    fn default() -> (r: Self)
        ensures
            r == (TemperatureReading {
                temperature_celsius_x100: 0,
                timestamp: 0,
                is_violation: false,
            }),
    {
        TemperatureReading { temperature_celsius_x100: 0, timestamp: 0, is_violation: false }
    }
}

/// Per-unit temperature bounds, fixed-point in hundredths of a degree.
#[derive(Clone, Copy, Debug, PartialEq, Eq, Structural)]
pub struct TemperatureThreshold {
    pub min_celsius_x100: i32,
    pub max_celsius_x100: i32,
}

/// One page of a unit's series: the backing vector and the stored length
/// counter that bounds its semantically valid prefix.
pub struct TempPage {
    pub entries: Vec<TemperatureReading>,
    pub len: u32,
}

/// Whether `reading` falls outside the threshold bounds.
pub open spec fn spec_violates(reading: i32, t: TemperatureThreshold) -> bool {
    reading < t.min_celsius_x100 || reading > t.max_celsius_x100
}

/// Evaluates a reading against a threshold; the verdict is frozen into the
/// reading at write time and never re-evaluated.
pub fn evaluate(temperature_celsius_x100: i32, threshold: &TemperatureThreshold) -> (r: bool)
    ensures
        r == spec_violates(temperature_celsius_x100, *threshold),
{
    temperature_celsius_x100 < threshold.min_celsius_x100 || temperature_celsius_x100
        > threshold.max_celsius_x100
}

/// A page's stored length is within capacity and never exceeds the physical
/// slot count of its backing vector.
pub open spec fn page_valid(p: TempPage) -> bool {
    &&& p.len <= PAGE_SIZE
    &&& p.len <= p.entries@.len()
}

/// The semantically valid readings of a page: the first `len` slots.
pub open spec fn page_readings(p: TempPage) -> Seq<TemperatureReading> {
    p.entries@.take(p.len as int)
}

/// The page invariant of a unit's series: every page is valid, every page
/// before the last is exactly at capacity, and the last page is never empty
/// (a page is created only when a reading lands on it).
pub open spec fn series_wf(pages: Seq<TempPage>) -> bool {
    &&& forall|t: int| 0 <= t < pages.len() ==> page_valid(#[trigger] pages[t])
    &&& forall|t: int| 0 <= t < pages.len() - 1 ==> (#[trigger] pages[t]).len == PAGE_SIZE
    &&& pages.len() > 0 ==> pages.last().len >= 1
}

/// All semantically valid readings of a series, in insertion order.
pub open spec fn series_readings(pages: Seq<TempPage>) -> Seq<TemperatureReading>
    decreases pages.len(),
{
    if pages.len() == 0 {
        Seq::empty()
    } else {
        series_readings(pages.drop_last()) + page_readings(pages.last())
    }
}

/// The subsequence of readings whose violation flag is set.
pub open spec fn violations_of(s: Seq<TemperatureReading>) -> Seq<TemperatureReading>
    decreases s.len(),
{
    if s.len() == 0 {
        Seq::empty()
    } else if s.last().is_violation {
        violations_of(s.drop_last()).push(s.last())
    } else {
        violations_of(s.drop_last())
    }
}

/// Under the page invariant, the number of stored readings determines the
/// page shape exactly: every page but the last holds `PAGE_SIZE` readings
/// and the last holds the remainder.
pub proof fn lemma_series_reading_count(pages: Seq<TempPage>)
    requires
        series_wf(pages),
    ensures
        pages.len() == 0 ==> series_readings(pages).len() == 0,
        pages.len() > 0 ==> series_readings(pages).len() == (pages.len() - 1) * PAGE_SIZE
            + pages.last().len,
    decreases pages.len(),
{
    if pages.len() > 0 {
        let prefix = pages.drop_last();
        assert forall|t: int| 0 <= t < prefix.len() implies page_valid(#[trigger] prefix[t]) by {
            assert(prefix[t] == pages[t]);
        }
        assert forall|t: int| 0 <= t < prefix.len() - 1 implies (#[trigger] prefix[t]).len
            == PAGE_SIZE by {
            assert(prefix[t] == pages[t]);
        }
        if prefix.len() > 0 {
            assert(prefix.last() == pages[pages.len() - 2]);
            assert(prefix.last().len == PAGE_SIZE);
        }
        lemma_series_reading_count(prefix);
        assert(page_readings(pages.last()).len() == pages.last().len);
    }
}

/// Every reading that the violation filter keeps is flagged as a violation
/// and comes from the filtered sequence.
pub proof fn lemma_violations_flagged(s: Seq<TemperatureReading>)
    ensures
        forall|i: int| 0 <= i < violations_of(s).len() ==> (#[trigger] violations_of(
            s,
        )[i]).is_violation && s.contains(violations_of(s)[i]),
    decreases s.len(),
{
    if s.len() > 0 {
        lemma_violations_flagged(s.drop_last());
        assert forall|i: int| 0 <= i < violations_of(s).len() implies (#[trigger] violations_of(
            s,
        )[i]).is_violation && s.contains(violations_of(s)[i]) by {
            if s.last().is_violation && i == violations_of(s).len() - 1 {
                assert(violations_of(s)[i] == s.last());
                assert(s[s.len() - 1] == s.last());
            } else {
                assert(violations_of(s)[i] == violations_of(s.drop_last())[i]);
                assert(s.drop_last().contains(violations_of(s)[i]));
                let t = choose|t: int|
                    0 <= t < s.drop_last().len() && s.drop_last()[t] == violations_of(s)[i];
                assert(s[t] == violations_of(s)[i]);
            }
        }
    }
}

/// The temperature store with all state the hosting ledger would persist:
/// the admin identity, per-unit thresholds, and per-unit page series.
pub struct TemperatureContract {
    /// The authority allowed to set thresholds; `None` until `initialize`.
    pub admin: Option<AccountId>,
    /// Per-unit temperature bounds, overwritable, no historical versioning.
    pub thresholds: HashMap<u64, TemperatureThreshold>,
    /// Per-unit page series.
    pub pages: HashMap<u64, Vec<TempPage>>,
}

impl TemperatureContract {
    pub open spec fn is_initialized(self) -> bool {
        self.admin is Some
    }

    /// The threshold currently stored for `unit_id`, if any.
    pub open spec fn spec_threshold(self, unit_id: u64) -> Option<TemperatureThreshold> {
        if self.thresholds@.contains_key(unit_id) {
            Some(self.thresholds@[unit_id])
        } else {
            None
        }
    }

    /// The page series of `unit_id`, empty if none was ever written.
    pub open spec fn spec_pages(self, unit_id: u64) -> Seq<TempPage> {
        if self.pages@.contains_key(unit_id) {
            self.pages@[unit_id]@
        } else {
            Seq::empty()
        }
    }

    /// All semantically valid readings of `unit_id`, in insertion order.
    pub open spec fn spec_readings(self, unit_id: u64) -> Seq<TemperatureReading> {
        series_readings(self.spec_pages(unit_id))
    }

    /// Well-formedness: every stored series obeys the page invariant.
    pub open spec fn wf(self) -> bool {
        forall|u: u64| self.pages@.contains_key(u) ==> series_wf(#[trigger] self.pages@[u]@)
    }

    /// A fresh, uninitialized store with no thresholds and no readings.
    pub fn new() -> (s: Self)
        ensures
            s.wf(),
            !s.is_initialized(),
            forall|u: u64| s.spec_threshold(u) is None,
            forall|u: u64| s.spec_readings(u) == Seq::<TemperatureReading>::empty(),
            forall|u: u64| s.spec_pages(u) == Seq::<TempPage>::empty(),
    {
        TemperatureContract { admin: None, thresholds: HashMap::new(), pages: HashMap::new() }
    }

    /// Stores the admin identity; fails if one is already set.
    pub fn initialize(&mut self, admin: AccountId) -> (r: Result<(), ContractError>)
        ensures
            old(self).is_initialized() ==> r == Err::<(), ContractError>(
                ContractError::AlreadyInitialized,
            ) && *final(self) == *old(self),
            !old(self).is_initialized() ==> r == Ok::<(), ContractError>(()) && *final(self)
                == (TemperatureContract { admin: Some(admin), ..*old(self) }),
    {
        if self.admin.is_some() {
            return Err(ContractError::AlreadyInitialized);
        }
        self.admin = Some(admin);
        Ok(())
    }

    /// Stores the temperature bounds for a unit, overwriting any earlier
    /// ones; a later change does not reclassify earlier readings.
    pub fn set_threshold(
        &mut self,
        admin: AccountId,
        unit_id: u64,
        min_celsius_x100: i32,
        max_celsius_x100: i32,
    ) -> (r: Result<(), ContractError>)
        requires
            old(self).is_initialized(),
        ensures
            old(self).admin != Some(admin) ==> r == Err::<(), ContractError>(
                ContractError::Unauthorized,
            ) && *final(self) == *old(self),
            old(self).admin == Some(admin) && min_celsius_x100 >= max_celsius_x100 ==> r
                == Err::<(), ContractError>(ContractError::InvalidThreshold) && *final(self)
                == *old(self),
            old(self).admin == Some(admin) && min_celsius_x100 < max_celsius_x100 ==> {
                &&& r == Ok::<(), ContractError>(())
                &&& final(self).spec_threshold(unit_id) == Some(
                    TemperatureThreshold { min_celsius_x100, max_celsius_x100 },
                )
                &&& forall|j: u64| j != unit_id ==> final(self).spec_threshold(j) == old(self).spec_threshold(j)
                &&& final(self).pages == old(self).pages
                &&& final(self).admin == old(self).admin
            },
    {
        let admin_ok = match &self.admin {
            Some(a) => *a == admin,
            None => false,
        };
        if !admin_ok {
            return Err(ContractError::Unauthorized);
        }
        if min_celsius_x100 >= max_celsius_x100 {
            return Err(ContractError::InvalidThreshold);
        }
        self.thresholds.insert(
            unit_id,
            TemperatureThreshold { min_celsius_x100, max_celsius_x100 },
        );
        Ok(())
    }

    /// The temperature bounds currently stored for a unit.
    pub fn get_threshold(&self, unit_id: u64) -> (r: Option<TemperatureThreshold>)
        ensures
            r == self.spec_threshold(unit_id),
    {
        match self.thresholds.get(&unit_id) {
            Some(t) => Some(*t),
            None => None,
        }
    }

    /// Appends a reading to a unit's series: the write position is the first
    /// page whose stored length is below capacity, at its current length.
    /// The violation flag is evaluated against the threshold stored now and
    /// frozen into the reading. Fails only when no threshold is set.
    #[verifier::loop_isolation(false)]
    pub fn log_reading(&mut self, unit_id: u64, temperature_celsius_x100: i32, timestamp: u64) -> (r:
        Result<(), ContractError>)
        requires
            old(self).wf(),
        ensures
            final(self).wf(),
            match old(self).spec_threshold(unit_id) {
                None => r == Err::<(), ContractError>(ContractError::ThresholdNotFound) && *final(self) == *old(self),
                Some(t) => {
                    &&& r == Ok::<(), ContractError>(())
                    &&& final(self).spec_readings(unit_id) == old(self).spec_readings(
                        unit_id,
                    ).push(
                        (TemperatureReading {
                            temperature_celsius_x100,
                            timestamp,
                            is_violation: spec_violates(temperature_celsius_x100, t),
                        }),
                    )
                    &&& forall|j: u64| j != unit_id ==> final(self).spec_pages(j) == old(self).spec_pages(j)
                    &&& final(self).thresholds == old(self).thresholds
                    &&& final(self).admin == old(self).admin
                },
            },
    {
        let threshold = match self.thresholds.get(&unit_id) {
            None => {
                return Err(ContractError::ThresholdNotFound);
            },
            Some(t) => *t,
        };
        let is_violation = evaluate(temperature_celsius_x100, &threshold);
        let reading = TemperatureReading { temperature_celsius_x100, timestamp, is_violation };

        let mut series: Vec<TempPage> = match self.pages.remove(&unit_id) {
            Some(v) => v,
            None => Vec::new(),
        };
        let ghost series0 = series@;
        proof {
            assert(series_wf(series0));
        }

        // Locate the write position: the first page whose stored length is
        // below capacity; every page the scan passes is exactly full.
        let mut page_num: usize = 0;
        while page_num < series.len() && series[page_num].len >= PAGE_SIZE
            invariant
                page_num <= series@.len(),
                forall|t: int| 0 <= t < page_num ==> (#[trigger] series@[t]).len >= PAGE_SIZE,
            decreases series@.len() - page_num,
        {
            page_num = page_num + 1;
        }

        if page_num == series.len() {
            // Every stored page is full (or none exists): start a new page.
            let mut entries: Vec<TemperatureReading> = Vec::new();
            entries.push(reading);
            let page = TempPage { entries, len: 1 };
            proof {
                assert(page_readings(page) =~= Seq::<TemperatureReading>::empty().push(reading));
                assert(series_readings(series@.push(page)) == series_readings(series0)
                    + page_readings(page)) by {
                    assert(series@.push(page).drop_last() =~= series0);
                }
                assert(series_readings(series0) + page_readings(page) =~= series_readings(
                    series0,
                ).push(reading));
            }
            series.push(page);
        } else {
            // The scan stopped on a non-full page; under the page invariant
            // that can only be the last one.
            proof {
                assert(series0.len() > 0);
                assert(page_num == series0.len() - 1);
            }
            let mut page = match series.pop() {
                Some(p) => p,
                None => {
                    proof {
                        assert(false);
                    }
                    return Err(ContractError::UnitNotFound);
                },
            };
            let position = page.len;
            // If a previous partial write left the backing vector short of
            // the write position, pad it with placeholders first; query
            // operations never return these, because the stored length, not
            // the slot count, bounds every read.
            while page.entries.len() < position as usize
                invariant
                    page.len == position,
                    page == series0.last(),
                decreases position as int - page.entries@.len(),
            {
                proof {
                    assert(page_valid(series0[series0.len() - 1]));
                }
                page.entries.push(TemperatureReading::default());
            }
            let ghost page0 = page;
            if page.entries.len() == position as usize {
                page.entries.push(reading);
            } else {
                page.entries[position as usize] = reading;
            }
            page.len = position + 1;
            proof {
                assert(page_readings(page) =~= page_readings(page0).push(reading));
                assert(series0.drop_last() =~= series@);
                assert(series_readings(series@.push(page)) == series_readings(series@)
                    + page_readings(page)) by {
                    assert(series@.push(page).drop_last() =~= series@);
                }
                assert(series_readings(series@) + page_readings(page) =~= series_readings(
                    series0,
                ).push(reading));
            }
            series.push(page);
        }
        proof {
            assert(series_readings(series@) == series_readings(series0).push(reading));
        }
        self.pages.insert(unit_id, series);
        Ok(())
    }

    /// All readings of `unit_id` in insertion order, bounded per page by the
    /// stored length counter, so placeholders are never returned.
    #[verifier::loop_isolation(false)]
    pub fn get_readings(&self, unit_id: u64) -> (r: Result<Vec<TemperatureReading>, ContractError>)
        requires
            self.wf(),
        ensures
            r matches Ok(v) && v@ == self.spec_readings(unit_id),
    {
        let empty: Vec<TempPage> = Vec::new();
        let series: &Vec<TempPage> = match self.pages.get(&unit_id) {
            Some(v) => v,
            None => &empty,
        };
        let mut all_readings: Vec<TemperatureReading> = Vec::new();
        let mut p: usize = 0;
        while p < series.len()
            invariant
                p <= series@.len(),
                series@ == self.spec_pages(unit_id),
                series_wf(series@),
                all_readings@ == series_readings(series@.take(p as int)),
            decreases series@.len() - p,
        {
            let ghost outer = all_readings@;
            let page = &series[p];
            proof {
                assert(page_valid(series@[p as int]));
            }
            let page_len = if page.len as usize <= page.entries.len() {
                page.len as usize
            } else {
                page.entries.len()
            };
            let mut e: usize = 0;
            while e < page_len
                invariant
                    e <= page_len,
                    page_len == page.len as usize,
                    page == series@[p as int],
                    p < series@.len(),
                    all_readings@ == outer + page.entries@.take(e as int),
                decreases page_len - e,
            {
                all_readings.push(page.entries[e]);
                proof {
                    assert(all_readings@ =~= outer + page.entries@.take(e as int + 1));
                }
                e = e + 1;
            }
            proof {
                assert(series@.take(p as int + 1).drop_last() =~= series@.take(p as int));
                assert(series@.take(p as int + 1).last() == series@[p as int]);
                assert(all_readings@ =~= series_readings(series@.take(p as int + 1)));
            }
            p = p + 1;
        }
        proof {
            assert(series@.take(p as int) =~= series@);
        }
        Ok(all_readings)
    }

    /// The readings of `unit_id` whose violation flag was frozen as set, in
    /// insertion order.
    #[verifier::loop_isolation(false)]
    pub fn get_violations(&self, unit_id: u64) -> (r: Result<
        Vec<TemperatureReading>,
        ContractError,
    >)
        requires
            self.wf(),
        ensures
            r matches Ok(v) && v@ == violations_of(self.spec_readings(unit_id)),
    {
        let empty: Vec<TempPage> = Vec::new();
        let series: &Vec<TempPage> = match self.pages.get(&unit_id) {
            Some(v) => v,
            None => &empty,
        };
        let mut violations: Vec<TemperatureReading> = Vec::new();
        let mut p: usize = 0;
        while p < series.len()
            invariant
                p <= series@.len(),
                series@ == self.spec_pages(unit_id),
                series_wf(series@),
                violations@ == violations_of(series_readings(series@.take(p as int))),
            decreases series@.len() - p,
        {
            let ghost outer = series_readings(series@.take(p as int));
            let page = &series[p];
            proof {
                assert(page_valid(series@[p as int]));
            }
            let page_len = if page.len as usize <= page.entries.len() {
                page.len as usize
            } else {
                page.entries.len()
            };
            let mut e: usize = 0;
            while e < page_len
                invariant
                    e <= page_len,
                    page_len == page.len as usize,
                    page == series@[p as int],
                    p < series@.len(),
                    violations@ == violations_of(outer + page.entries@.take(e as int)),
                decreases page_len - e,
            {
                let reading = page.entries[e];
                proof {
                    assert((outer + page.entries@.take(e as int + 1)).drop_last() =~= outer
                        + page.entries@.take(e as int));
                    assert((outer + page.entries@.take(e as int + 1)).last() == reading);
                }
                if reading.is_violation {
                    violations.push(reading);
                }
                e = e + 1;
            }
            proof {
                assert(series@.take(p as int + 1).drop_last() =~= series@.take(p as int));
                assert(series@.take(p as int + 1).last() == series@[p as int]);
                assert(outer + page.entries@.take(page_len as int) =~= series_readings(
                    series@.take(p as int + 1),
                ));
            }
            p = p + 1;
        }
        proof {
            assert(series@.take(p as int) =~= series@);
        }
        Ok(violations)
    }
}

} // verus!
