use vstd::prelude::*;

use crate::error::ErrorCode;

verus! {

/// One entry of an emission schedule: from `start_unix_ts` on, the DAO is
/// authorized to mint `emissions_per_epoch` tokens each epoch, until a later
/// entry takes over.
#[derive(Clone, Copy, Debug, PartialEq, Eq, Structural)]
pub struct EmissionScheduleItem {
    pub start_unix_ts: i64,
    pub emissions_per_epoch: u64,
}

/// A valid schedule's entries are strictly increasing in `start_unix_ts`, so
/// insertion order is chronological order and every timestamp has at most
/// one governing entry.
pub open spec fn schedule_well_formed(items: Seq<EmissionScheduleItem>) -> bool {
    forall|i: int, j: int|
        0 <= i < j < items.len() ==> items[i].start_unix_ts < items[j].start_unix_ts
}

/// The index of the last entry whose `start_unix_ts` is at or before `ts`,
/// or -1 when every entry starts after `ts` (or there is none).
pub open spec fn spec_lookup_index(items: Seq<EmissionScheduleItem>, ts: int) -> int
    decreases items.len(),
{
    if items.len() == 0 {
        -1
    } else if items.last().start_unix_ts <= ts {
        items.len() - 1
    } else {
        spec_lookup_index(items.drop_last(), ts)
    }
}

/// The rate a schedule authorizes at `ts`: that of the latest entry not
/// after `ts`, or nothing when `ts` precedes the whole schedule.
pub open spec fn spec_rate_at(items: Seq<EmissionScheduleItem>, ts: int) -> Option<u64> {
    let i = spec_lookup_index(items, ts);
    if i >= 0 {
        Some(items[i].emissions_per_epoch)
    } else {
        None
    }
}

pub proof fn lemma_lookup_index_bounds(items: Seq<EmissionScheduleItem>, ts: int)
    ensures
        -1 <= spec_lookup_index(items, ts) < items.len(),
    decreases items.len(),
{
    if items.len() > 0 && items.last().start_unix_ts > ts {
        lemma_lookup_index_bounds(items.drop_last(), ts);
    }
}

/// When every entry starts after `ts`, the lookup finds nothing.
pub proof fn lemma_lookup_index_none(items: Seq<EmissionScheduleItem>, ts: int)
    requires
        forall|j: int| 0 <= j < items.len() ==> #[trigger] items[j].start_unix_ts > ts,
    ensures
        spec_lookup_index(items, ts) == -1,
    decreases items.len(),
{
    if items.len() > 0 {
        lemma_lookup_index_none(items.drop_last(), ts);
    }
}

/// The lookup finds exactly the entry at or before `ts` that every later
/// entry overshoots.
pub proof fn lemma_lookup_index_found(items: Seq<EmissionScheduleItem>, ts: int, k: int)
    requires
        0 <= k < items.len(),
        items[k].start_unix_ts <= ts,
        forall|j: int| k < j < items.len() ==> #[trigger] items[j].start_unix_ts > ts,
    ensures
        spec_lookup_index(items, ts) == k,
    decreases items.len(),
{
    if k == items.len() - 1 {
    } else {
        lemma_lookup_index_found(items.drop_last(), ts, k);
    }
}

/// Moving the lookup timestamp forward never moves the chosen entry
/// backward: for any fixed schedule, the index found at an earlier
/// timestamp is at most the index found at a later one.
pub proof fn lemma_lookup_index_monotonic(items: Seq<EmissionScheduleItem>, t1: int, t2: int)
    requires
        t1 <= t2,
    ensures
        spec_lookup_index(items, t1) <= spec_lookup_index(items, t2),
    decreases items.len(),
{
    if items.len() > 0 {
        if items.last().start_unix_ts <= t1 {
        } else if items.last().start_unix_ts > t2 {
            lemma_lookup_index_monotonic(items.drop_last(), t1, t2);
        } else {
            lemma_lookup_index_bounds(items.drop_last(), t1);
        }
    }
}

/// An emission schedule: a piecewise table of mint rates, ordered by start
/// time. Constructed and replaced only as a whole, and only when the
/// ordering invariant holds.
#[derive(Clone, Debug)]
pub struct EmissionSchedule {
    items: Vec<EmissionScheduleItem>,
}

impl View for EmissionSchedule {
    type V = Seq<EmissionScheduleItem>;

    closed spec fn view(&self) -> Seq<EmissionScheduleItem> {
        self.items@
    }
}

impl EmissionSchedule {
    /// Every constructed schedule is well formed.
    pub open spec fn well_formed(&self) -> bool {
        schedule_well_formed(self@)
    }

    /// Validates that `items` is strictly increasing in start time.
    pub fn validate(items: &Vec<EmissionScheduleItem>) -> (ok: bool)
        ensures
            ok == schedule_well_formed(items@),
    {
        let n = items.len();
        let mut i: usize = 1;
        while i < n
            invariant
                1 <= i <= n || n == 0,
                n == items@.len(),
                forall|p: int, q: int| 0 <= p < q < i ==> items@[p].start_unix_ts < items@[q].start_unix_ts,
            decreases n - i,
        {
            if items[i - 1].start_unix_ts >= items[i].start_unix_ts {
                return false;
            }
            assert forall|p: int| 0 <= p < i implies items@[p].start_unix_ts < items@[i as int].start_unix_ts by {
                if p < i - 1 {
                    assert(items@[p].start_unix_ts < items@[i - 1].start_unix_ts);
                }
            }
            i = i + 1;
        }
        true
    }

    /// Accepts `items` as a schedule when it is strictly increasing;
    /// otherwise reports `InvalidSchedule` and no schedule is made.
    pub fn new(items: Vec<EmissionScheduleItem>) -> (r: Result<EmissionSchedule, ErrorCode>)
        ensures
            match r {
                Ok(s) => s@ == items@ && s.well_formed(),
                Err(e) => e == ErrorCode::InvalidSchedule && !schedule_well_formed(items@),
            },
    {
        if EmissionSchedule::validate(&items) {
            Ok(EmissionSchedule { items })
        } else {
            Err(ErrorCode::InvalidSchedule)
        }
    }

    /// The number of entries.
    pub fn len(&self) -> (n: usize)
        ensures
            n == self@.len(),
    {
        self.items.len()
    }

    /// The entry at `i`.
    pub fn item_at(&self, i: usize) -> (item: EmissionScheduleItem)
        requires
            i < self@.len(),
        ensures
            item == self@[i as int],
    {
        self.items[i]
    }

    /// The mint rate this schedule authorizes at `ts`: the rate of the
    /// latest entry starting at or before `ts`. Fails with
    /// `NoEmissionsScheduled` exactly when `ts` precedes every entry, in
    /// particular on an empty schedule.
    pub fn rate_at(&self, ts: i64) -> (r: Result<u64, ErrorCode>)
        ensures
            match r {
                Ok(rate) => spec_rate_at(self@, ts as int) == Some(rate),
                Err(e) => e == ErrorCode::NoEmissionsScheduled
                    && spec_rate_at(self@, ts as int) is None,
            },
    {
        let n = self.items.len();
        let mut i: usize = n;
        while i > 0
            invariant
                i <= n,
                n == self@.len(),
                forall|j: int| i <= j < n ==> #[trigger] self@[j].start_unix_ts > ts,
            decreases i,
        {
            if self.items[i - 1].start_unix_ts <= ts {
                proof {
                    lemma_lookup_index_found(self@, ts as int, i - 1);
                }
                return Ok(self.items[i - 1].emissions_per_epoch);
            }
            i = i - 1;
        }
        proof {
            lemma_lookup_index_none(self@, ts as int);
        }
        Err(ErrorCode::NoEmissionsScheduled)
    }
}

} // verus!
