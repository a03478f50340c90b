//! Time entries and the time they count for.

use vstd::prelude::*;

verus! {

/// The duration that marks an entry as still running.
pub const OPEN_DURATION: i64 = -1;

/// A time entry of the service. `start` is the entry's start as seconds since
/// the Unix epoch, UTC; `duration` is its length in seconds, or
/// `OPEN_DURATION` while it runs.
#[derive(Clone, Copy, Debug, PartialEq, Eq, Structural)]
pub struct TrackingEntry {
    pub id: u32,
    pub workspace_id: u32,
    pub start: i64,
    pub duration: i64,
}

/// A workspace of the account.
#[derive(Clone, Copy, Debug, PartialEq, Eq, Structural)]
pub struct Workspace {
    pub id: u32,
}

impl TrackingEntry {
    pub open spec fn is_open(self) -> bool {
        self.duration == OPEN_DURATION
    }

    /// The time that the entry counts for at `now`: the time since its start
    /// while it runs, its recorded duration once it is closed.
    pub open spec fn elapsed_at(self, now: int) -> int {
        if self.is_open() {
            now - self.start
        } else {
            self.duration as int
        }
    }

    /// Whether the entry is still running.
    pub fn running(&self) -> (r: bool)
        ensures
            r == self.is_open(),
    {
        self.duration == OPEN_DURATION
    }

    /// The time in seconds that the entry counts for at `now`.
    pub fn elapsed(&self, now: i64) -> (r: i128)
        ensures
            r == self.elapsed_at(now as int),
    {
        if self.duration == OPEN_DURATION {
            now as i128 - self.start as i128
        } else {
            self.duration as i128
        }
    }
}

/// The time that all `entries` count for together at `now`.
pub open spec fn total_elapsed(entries: Seq<TrackingEntry>, now: int) -> int
    decreases entries.len(),
{
    if entries.len() == 0 {
        0
    } else {
        total_elapsed(entries.drop_last(), now) + entries.last().elapsed_at(now)
    }
}

pub open spec fn fits_i64(x: int) -> bool {
    i64::MIN <= x <= i64::MAX
}

/// The time in seconds that `entries` count for together at `now`: each
/// running entry for the time since its start, each closed one for its
/// recorded duration. `None` when the sum does not fit an `i64`.
pub fn entries_duration(entries: &Vec<TrackingEntry>, now: i64) -> (r: Option<i64>)
    ensures
        r matches Some(t) <==> fits_i64(total_elapsed(entries@, now as int)),
        r matches Some(t) ==> t == total_elapsed(entries@, now as int),
{
    // The sum is kept as `open * now + rest`, where `open` counts the running
    // entries and `rest` adds the closed durations and subtracts the starts
    // of the running ones; each term of `rest` is an `i64`.
    let mut open: u64 = 0;
    let mut rest: i128 = 0;
    let mut i: usize = 0;
    while i < entries.len()
        invariant
            i <= entries.len(),
            open <= i,
            total_elapsed(entries@.subrange(0, i as int), now as int) == open * now + rest,
            -i * 0x8000_0000_0000_0000 <= rest <= i * 0x8000_0000_0000_0000,
        decreases entries.len() - i,
    {
        let e = entries[i];
        proof {
            assert(entries@.subrange(0, i + 1).drop_last() =~= entries@.subrange(0, i as int));
            assert(i < 0x1_0000_0000_0000_0000) by {
                assert(entries@.len() <= usize::MAX);
            }
        }
        if e.duration == OPEN_DURATION {
            proof {
                assert((open + 1) * now == open * now + now) by (nonlinear_arith);
            }
            open = open + 1;
            rest = rest - e.start as i128;
        } else {
            rest = rest + e.duration as i128;
        }
        i = i + 1;
    }
    assert(entries@.subrange(0, i as int) =~= entries@);
    match (open as i128).checked_mul(now as i128) {
        None => {
            proof {
                assert(open * now > i64::MAX || open * now < i64::MIN) by (nonlinear_arith)
                    requires
                        open * now > i128::MAX || open * now < i128::MIN,
                        -0x8000_0000_0000_0000 <= now < 0x8000_0000_0000_0000,
                ;
            }
            None
        },
        Some(running) => match running.checked_add(rest) {
            None => None,
            Some(total) => {
                if total < i64::MIN as i128 || total > i64::MAX as i128 {
                    None
                } else {
                    Some(total as i64)
                }
            },
        },
    }
}

/// The time of two lists of entries taken together is the sum of their times.
pub proof fn lemma_total_elapsed_concat(first: Seq<TrackingEntry>, second: Seq<TrackingEntry>, now: int)
    ensures
        total_elapsed(first + second, now) == total_elapsed(first, now) + total_elapsed(second, now),
    decreases second.len(),
{
    if second.len() == 0 {
        assert(first + second =~= first);
    } else {
        lemma_total_elapsed_concat(first, second.drop_last(), now);
        assert((first + second).drop_last() =~= first + second.drop_last());
        assert((first + second).last() == second.last());
    }
}

/// A running entry counts for exactly the time since its start, wherever it
/// stands among the other entries: never for its stored marker duration. When
/// it started no later than `now`, what it adds is not negative.
pub proof fn lemma_open_entry_counts_time_since_start(
    before: Seq<TrackingEntry>,
    entry: TrackingEntry,
    after: Seq<TrackingEntry>,
    now: int,
)
    requires
        entry.is_open(),
    ensures
        total_elapsed(before + seq![entry] + after, now) == total_elapsed(before + after, now) + (
        now - entry.start),
        entry.start <= now ==> total_elapsed(before + seq![entry] + after, now) >= total_elapsed(
            before + after,
            now,
        ),
{
    let single = seq![entry];
    assert(single.drop_last() =~= Seq::<TrackingEntry>::empty());
    assert(total_elapsed(Seq::<TrackingEntry>::empty(), now) == 0);
    assert(total_elapsed(single, now) == now - entry.start);
    lemma_total_elapsed_concat(before, single, now);
    lemma_total_elapsed_concat(before + single, after, now);
    lemma_total_elapsed_concat(before, after, now);
}

} // verus!
