//! Global admission control for identify payloads. The queue releases
//! at most `max_concurrency` slots per admission window and opens the
//! windows at least `IDENTIFY_WINDOW_MS` apart; the rate-cap law at the
//! bottom of the file states this over any run of admissions.
//!
//! Callers are expected to be serialized (the surrounding runtime holds
//! one mutual exclusion around the queue, across the wait) so each
//! caller's clock reading is at or after the previous caller's release.

use vstd::prelude::*;

use crate::{IDENTIFY_WINDOW_MS, MAX_TIME_MS};

verus! {

/// Mathematical state of the queue: slots left in the open window and
/// the time the window opened.
pub struct IdentifyQueueModel {
    pub remaining: int,
    pub reset_at: int,
}

/// Time at which a caller arriving at `now` is released: at once while
/// slots remain or the window has elapsed, else when the window ends.
pub open spec fn admit_release(q: IdentifyQueueModel, now: int) -> int {
    if q.remaining > 0 {
        now
    } else if now >= q.reset_at + IDENTIFY_WINDOW_MS {
        now
    } else {
        q.reset_at + IDENTIFY_WINDOW_MS
    }
}

/// State of the queue after one admission: one slot consumed; when the
/// window was exhausted, a fresh window of `k` slots opens at the
/// release time first.
pub open spec fn admit_state(q: IdentifyQueueModel, now: int, k: int) -> IdentifyQueueModel {
    if q.remaining > 0 {
        IdentifyQueueModel { remaining: q.remaining - 1, reset_at: q.reset_at }
    } else {
        IdentifyQueueModel { remaining: k - 1, reset_at: admit_release(q, now) }
    }
}

/// Admission controller shared by every shard of one manager. The
/// window start is kept signed so a fresh queue can back-date it one
/// whole window: the first admission is then granted at once even when
/// the clock has run for less than a window.
pub struct IdentifyQueue {
    remaining: u64,
    reset_at_ms: i64,
}

impl View for IdentifyQueue {
    type V = IdentifyQueueModel;

    closed spec fn view(&self) -> IdentifyQueueModel {
        IdentifyQueueModel { remaining: self.remaining as int, reset_at: self.reset_at_ms as int }
    }
}

impl IdentifyQueue {
    pub open spec fn wf(&self) -> bool {
        -(IDENTIFY_WINDOW_MS as int) <= self@.reset_at <= MAX_TIME_MS + IDENTIFY_WINDOW_MS
    }

    /// A fresh queue holds no slot, and its window start lies exactly
    /// one window in the past, so the first admission finds the window
    /// elapsed and is granted at its arrival time.
    pub fn new(now_ms: u64) -> (r: IdentifyQueue)
        requires
            now_ms <= MAX_TIME_MS,
        ensures
            r@.remaining == 0,
            r@.reset_at == now_ms - IDENTIFY_WINDOW_MS,
            r.wf(),
    {
        let reset_at_ms: i64 = now_ms as i64 - IDENTIFY_WINDOW_MS as i64;
        IdentifyQueue { remaining: 0, reset_at_ms }
    }

    /// Time at which the open admission window began. Callers use it
    /// to keep their clock readings at or after the window on record.
    pub fn reset_at(&self) -> (r: i64)
        ensures
            r == self@.reset_at,
    {
        self.reset_at_ms
    }

    /// Milliseconds a caller arriving at `now_ms` still waits before
    /// its slot is granted.
    pub fn wait_ms(&self, now_ms: u64) -> (r: u64)
        requires
            self.wf(),
            self@.reset_at <= now_ms <= MAX_TIME_MS,
        ensures
            r == admit_release(self@, now_ms as int) - now_ms,
    {
        if self.remaining == 0 {
            let window_end: i64 = self.reset_at_ms + IDENTIFY_WINDOW_MS as i64;
            if (now_ms as i64) < window_end {
                (window_end - now_ms as i64) as u64
            } else {
                0
            }
        } else {
            0
        }
    }

    /// Takes one identify slot for a caller arriving at `now_ms`,
    /// waiting out the rest of the window when it is exhausted; yields
    /// the release time. A caller that finds the window exhausted with
    /// `elapsed` of it gone is delayed by exactly
    /// `IDENTIFY_WINDOW_MS - elapsed`.
    pub fn await_slot(&mut self, now_ms: u64, max_concurrency: u64) -> (r: u64)
        requires
            old(self).wf(),
            old(self)@.reset_at <= now_ms <= MAX_TIME_MS,
            1 <= max_concurrency,
        ensures
            r == admit_release(old(self)@, now_ms as int),
            final(self)@ == admit_state(old(self)@, now_ms as int, max_concurrency as int),
            final(self).wf(),
            old(self)@.remaining > 0 ==> r == now_ms,
            old(self)@.remaining == 0 && now_ms < old(self)@.reset_at + IDENTIFY_WINDOW_MS ==> r
                - now_ms == old(self)@.reset_at + IDENTIFY_WINDOW_MS - now_ms,
            now_ms <= r,
            final(self)@.reset_at >= old(self)@.reset_at,
    {
        if self.remaining == 0 {
            let window_end: i64 = self.reset_at_ms + IDENTIFY_WINDOW_MS as i64;
            let release: u64 = if (now_ms as i64) >= window_end {
                now_ms
            } else {
                window_end as u64
            };
            self.remaining = max_concurrency - 1;
            self.reset_at_ms = release as i64;
            release
        } else {
            self.remaining = self.remaining - 1;
            now_ms
        }
    }
}

/// Law (fresh queue admits at once): a queue created at `created_ms`
/// grants its first admission, arriving at or after that time, at the
/// arrival time itself.
pub proof fn lemma_first_admission_immediate(created_ms: u64, now: int)
    requires
        created_ms <= now,
    ensures
        admit_release(
            IdentifyQueueModel {
                remaining: 0,
                reset_at: created_ms - IDENTIFY_WINDOW_MS,
            },
            now,
        ) == now,
{
}

/// Release times of a run of admissions through the queue, one arrival
/// time per caller.
pub open spec fn run_releases(q: IdentifyQueueModel, times: Seq<int>, k: int) -> Seq<int>
    decreases times.len(),
{
    if times.len() == 0 {
        Seq::empty()
    } else {
        seq![admit_release(q, times[0])] + run_releases(
            admit_state(q, times[0], k),
            times.skip(1),
            k,
        )
    }
}

/// Window-opening time each admission of a run belongs to.
pub open spec fn run_windows(q: IdentifyQueueModel, times: Seq<int>, k: int) -> Seq<int>
    decreases times.len(),
{
    if times.len() == 0 {
        Seq::empty()
    } else {
        seq![admit_state(q, times[0], k).reset_at] + run_windows(
            admit_state(q, times[0], k),
            times.skip(1),
            k,
        )
    }
}

/// Arrival times of a run are admissible when each caller reads its
/// clock at or after the previous caller's release — the discipline the
/// serializing mutual exclusion enforces — and the first at or after
/// the window on record.
pub open spec fn arrivals_ok(q: IdentifyQueueModel, times: Seq<int>, k: int) -> bool
    decreases times.len(),
{
    times.len() == 0 || {
        &&& q.reset_at <= times[0]
        &&& (times.len() == 1 || admit_release(q, times[0]) <= times[1])
        &&& arrivals_ok(admit_state(q, times[0], k), times.skip(1), k)
    }
}

proof fn lemma_run_properties(q: IdentifyQueueModel, times: Seq<int>, k: int)
    requires
        1 <= k,
        0 <= q.remaining <= k,
        arrivals_ok(q, times, k),
    ensures
        run_releases(q, times, k).len() == times.len(),
        run_windows(q, times, k).len() == times.len(),
        forall|i: int|
            0 <= i < times.len() ==> q.reset_at <= #[trigger] run_windows(q, times, k)[i]
                <= run_releases(q, times, k)[i],
        forall|i: int, j: int|
            0 <= i <= j < times.len() ==> #[trigger] run_windows(q, times, k)[i]
                <= #[trigger] run_windows(q, times, k)[j],
        forall|i: int|
            q.remaining <= i < times.len() ==> #[trigger] run_windows(q, times, k)[i]
                >= q.reset_at + IDENTIFY_WINDOW_MS,
        forall|i: int, j: int|
            0 <= i && i + k <= j < times.len() ==> #[trigger] run_windows(q, times, k)[i]
                + IDENTIFY_WINDOW_MS <= #[trigger] run_windows(q, times, k)[j],
    decreases times.len(),
{
    if times.len() > 0 {
        let t0 = times[0];
        let r0 = admit_release(q, t0);
        let q2 = admit_state(q, t0, k);
        let tail = times.skip(1);
        lemma_run_properties(q2, tail, k);
        let rels = run_releases(q, times, k);
        let wins = run_windows(q, times, k);
        let rels2 = run_releases(q2, tail, k);
        let wins2 = run_windows(q2, tail, k);
        assert(rels == seq![r0] + rels2);
        assert(wins == seq![q2.reset_at] + wins2);
        assert(wins[0] == q2.reset_at);
        assert(rels[0] == r0);
        assert forall|i: int| 0 <= i < times.len() implies q.reset_at <= #[trigger] wins[i]
            <= rels[i] by {
            if i == 0 {
                assert(wins[0] == q2.reset_at);
                if q.remaining > 0 {
                    assert(q2.reset_at == q.reset_at);
                    assert(r0 == t0);
                } else {
                    assert(q2.reset_at == r0);
                }
            } else {
                assert(wins[i] == wins2[i - 1]);
                assert(rels[i] == rels2[i - 1]);
                assert(q2.reset_at <= wins2[i - 1] <= rels2[i - 1]);
                assert(q.reset_at <= q2.reset_at);
            }
        }
        assert forall|i: int, j: int| 0 <= i <= j < times.len() implies #[trigger] wins[i]
            <= #[trigger] wins[j] by {
            if i == 0 {
                if j > 0 {
                    assert(wins[j] == wins2[j - 1]);
                    assert(q2.reset_at <= wins2[j - 1]);
                }
            } else {
                assert(wins[i] == wins2[i - 1]);
                assert(wins[j] == wins2[j - 1]);
            }
        }
        assert forall|i: int| q.remaining <= i < times.len() implies #[trigger] wins[i]
            >= q.reset_at + IDENTIFY_WINDOW_MS by {
            if q.remaining == 0 {
                if i == 0 {
                    assert(wins[0] == q2.reset_at);
                    assert(q2.reset_at == r0);
                    assert(r0 >= q.reset_at + IDENTIFY_WINDOW_MS);
                } else {
                    assert(wins[i] == wins2[i - 1]);
                    assert(q2.reset_at <= wins2[i - 1]);
                    assert(q2.reset_at == r0 >= q.reset_at + IDENTIFY_WINDOW_MS);
                }
            } else {
                assert(i >= 1);
                assert(wins[i] == wins2[i - 1]);
                assert(q2.remaining == q.remaining - 1);
                assert(q2.reset_at == q.reset_at);
                assert(i - 1 >= q2.remaining);
                assert(wins2[i - 1] >= q2.reset_at + IDENTIFY_WINDOW_MS);
            }
        }
        assert forall|i: int, j: int| 0 <= i && i + k <= j < times.len() implies #[trigger] wins[i]
            + IDENTIFY_WINDOW_MS <= #[trigger] wins[j] by {
            if i == 0 {
                assert(j >= k >= 1);
                assert(wins[j] == wins2[j - 1]);
                assert(q2.remaining <= k - 1);
                assert(j - 1 >= q2.remaining);
                assert(wins2[j - 1] >= q2.reset_at + IDENTIFY_WINDOW_MS);
                assert(wins[0] == q2.reset_at);
            } else {
                assert(wins[i] == wins2[i - 1]);
                assert(wins[j] == wins2[j - 1]);
            }
        }
    }
}

/// Law (identify rate cap): over any admissible run of admissions
/// through a fresh queue, every release happens at or after the window
/// it belongs to opens, windows open at least `IDENTIFY_WINDOW_MS`
/// apart once `max_concurrency` further admissions have passed, and no
/// window admits more than `max_concurrency` callers.
pub proof fn lemma_identify_rate_cap(q: IdentifyQueueModel, times: Seq<int>, k: int)
    requires
        1 <= k,
        q.remaining == 0,
        arrivals_ok(q, times, k),
    ensures
        run_releases(q, times, k).len() == times.len(),
        run_windows(q, times, k).len() == times.len(),
        forall|i: int|
            0 <= i < times.len() ==> #[trigger] run_windows(q, times, k)[i] <= run_releases(
                q,
                times,
                k,
            )[i],
        forall|i: int, j: int|
            0 <= i && i + k <= j < times.len() ==> #[trigger] run_windows(q, times, k)[i]
                + IDENTIFY_WINDOW_MS <= #[trigger] run_windows(q, times, k)[j],
        forall|i: int, j: int|
            0 <= i <= j < times.len() && #[trigger] run_windows(q, times, k)[i]
                == #[trigger] run_windows(q, times, k)[j] ==> j - i < k,
{
    lemma_run_properties(q, times, k);
    let wins = run_windows(q, times, k);
    assert forall|i: int, j: int|
        0 <= i <= j < times.len() && #[trigger] wins[i] == #[trigger] wins[j] implies j - i
        < k by {
        if j - i >= k {
            assert(wins[i] + IDENTIFY_WINDOW_MS <= wins[j]);
        }
    }
}

} // verus!
