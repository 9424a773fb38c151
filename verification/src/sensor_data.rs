//! Storage for sensor readings with time attached.
//!
//! A bounded, time-windowed store downsamples a possibly bursty stream of
//! timestamped samples into at most `N` history cells.  Samples arriving
//! within `window_size` of the newest cell are merged into it by a pluggable
//! policy ([`filter::Filter`]); samples spaced beyond the window accumulate
//! as distinct cells, the oldest cell giving way once capacity is reached.

pub mod filter;

use vstd::prelude::*;

pub use filter::Filter;

verus! {

/// A sensor value paired with the instant (in clock ticks) it was recorded.
#[derive(Clone, Copy)]
pub struct TimedSensorData<T> {
    pub at: u64,
    pub value: T,
}

impl<T> TimedSensorData<T> {
    /// The recorded value.
    pub fn get(&self) -> (r: &T)
        ensures
            *r == self.value,
    {
        &self.value
    }

    /// The instant the value was recorded, in clock ticks.
    pub fn time(&self) -> (r: u64)
        ensures
            r == self.at,
    {
        self.at
    }
}

/// Timestamps never decrease along the buffer.
pub open spec fn sorted_by_time<T>(s: Seq<TimedSensorData<T>>) -> bool {
    forall|i: int, j: int| 0 <= i <= j < s.len() ==> s[i].at <= s[j].at
}

/// One `add` on the store's contents, as a mathematical step.
///
/// `decision` is the merge policy's answer for the incoming sample.  An
/// empty store accepts unconditionally; a dropped sample changes nothing; an
/// accepted sample either opens a new cell (evicting the oldest at
/// capacity `cap`) when the window has passed, or replaces the value of the
/// newest cell, keeping that cell's timestamp but noting the true arrival
/// time.
pub open spec fn store_add_step<T>(
    entries: Seq<TimedSensorData<T>>,
    last_pushed: u64,
    window_size: u64,
    cap: int,
    now: u64,
    data: T,
    decision: Option<T>,
) -> (Seq<TimedSensorData<T>>, u64) {
    if entries.len() == 0 {
        (seq![TimedSensorData { at: now, value: data }], now)
    } else {
        match decision {
            None => (entries, last_pushed),
            Some(v) => {
                if window_size <= now - entries.last().at {
                    let kept = if entries.len() >= cap {
                        entries.subrange(1, entries.len() as int)
                    } else {
                        entries
                    };
                    (kept.push(TimedSensorData { at: now, value: v }), last_pushed)
                } else {
                    (
                        entries.update(
                            entries.len() - 1,
                            TimedSensorData { at: entries.last().at, value: v },
                        ),
                        now,
                    )
                }
            },
        }
    }
}

/// A bounded, time-windowed ring buffer of timestamped samples.
pub struct SensorDataStore<T, FILTER, const N: usize> {
    buffer: Vec<TimedSensorData<T>>,
    /// Samples arriving within this many ticks of the newest cell are merged
    /// into it; samples spaced further apart open new cells.
    window_size: u64,
    filter: FILTER,
    /// True arrival time of the most recently accepted sample, tracked
    /// independently of the newest cell's displayed timestamp.
    last_pushed: u64,
}

impl<T, FILTER, const N: usize> SensorDataStore<T, FILTER, N> {
    /// The stored cells, oldest first.
    pub closed spec fn entries(self) -> Seq<TimedSensorData<T>> {
        self.buffer@
    }

    /// The merge window, in clock ticks.
    pub closed spec fn spec_window(self) -> u64 {
        self.window_size
    }

    /// True arrival time of the most recently accepted sample.
    pub closed spec fn spec_last_pushed(self) -> u64 {
        self.last_pushed
    }

    /// The merge policy's current state.
    pub closed spec fn spec_filter(self) -> FILTER {
        self.filter
    }

    /// At most `N` cells, in timestamp order.
    pub open spec fn wf(self) -> bool {
        &&& 0 < N
        &&& self.entries().len() <= N
        &&& sorted_by_time(self.entries())
    }

    pub fn new(window_size: u64, filter: FILTER) -> (r: Self)
        requires
            0 < N,
        ensures
            r.wf(),
            r.entries() == Seq::<TimedSensorData<T>>::empty(),
            r.spec_window() == window_size,
            r.spec_filter() == filter,
    {
        let r = SensorDataStore { buffer: Vec::new(), window_size, filter, last_pushed: now_ticks() };
        proof {
            assert(r.entries() =~= Seq::<TimedSensorData<T>>::empty());
        }
        r
    }

    /// Count of stored cells.
    pub fn len(&self) -> (r: usize)
        ensures
            r == self.entries().len(),
    {
        self.buffer.len()
    }

    /// Whether nothing is stored yet.
    pub fn is_empty(&self) -> (r: bool)
        ensures
            r == (self.entries().len() == 0),
    {
        self.buffer.len() == 0
    }
}

impl<T, FILTER, const N: usize> SensorDataStore<T, FILTER, N> where
    T: Copy,
    FILTER: Filter<Item = T>,
 {
    /// The merge policy's answer for a sample of value `data` arriving at
    /// `now`, judged against the newest cell and the true arrival time of
    /// the last accepted sample.
    pub open spec fn decision(self, now: u64, data: T) -> Option<T> {
        self.spec_filter().filter_spec(
            TimedSensorData { at: self.spec_last_pushed(), value: self.entries().last().value },
            TimedSensorData { at: now, value: data },
            self.spec_window(),
        )
    }

    /// How a store after one `add` relates to the store before it: the
    /// sample arrived at `now`, no earlier than the newest cell, and the
    /// contents took one `store_add_step` under the policy's decision.
    pub open spec fn add_relation(self, post: Self, data: T, now: u64) -> bool {
        &&& (self.entries().len() > 0 ==> self.entries().last().at <= now)
        &&& {
            let d = if self.entries().len() == 0 {
                None::<T>
            } else {
                self.decision(now, data)
            };
            let step = store_add_step(
                self.entries(),
                self.spec_last_pushed(),
                self.spec_window(),
                N as int,
                now,
                data,
                d,
            );
            post.entries() == step.0 && post.spec_last_pushed() == step.1
        }
    }

    /// Adds a sample recorded at instant `now`, applying the merge policy.
    ///
    /// The cell count does not necessarily grow: within the window the
    /// sample is merged into the newest cell, and the policy may drop it
    /// entirely.
    pub fn add_at(&mut self, data: T, now: u64)
        requires
            old(self).wf(),
            old(self).entries().len() > 0 ==> old(self).entries().last().at <= now,
        ensures
            final(self).wf(),
            final(self).spec_window() == old(self).spec_window(),
            old(self).add_relation(*final(self), data, now),
    {
        if self.buffer.len() == 0 {
            self.buffer.push(TimedSensorData { at: now, value: data });
            self.last_pushed = now;
            proof {
                assert(self.buffer@ =~= seq![TimedSensorData { at: now, value: data }]);
            }
            return;
        }

        let last_idx = self.buffer.len() - 1;
        let last_at = self.buffer[last_idx].at;
        let last_value = self.buffer[last_idx].value;
        let elapsed = now - last_at;

        let timed_prev = TimedSensorData { at: self.last_pushed, value: last_value };
        let timed_new = TimedSensorData { at: now, value: data };
        let new_data = self.filter.filter(&timed_prev, &timed_new, self.window_size);

        let merged = match new_data {
            None => {
                // The policy dropped the sample: expected debounce
                // behaviour, not a fault.
                return;
            },
            Some(merged) => merged,
        };

        if self.window_size <= elapsed {
            // Outside the window: the sample opens a new cell.
            if self.buffer.len() == N {
                self.buffer.remove(0);
            }
            self.buffer.push(TimedSensorData { at: now, value: merged });
        } else {
            // Within the window: the newest cell keeps its timestamp but
            // takes the merged value, and the true arrival time is noted.
            self.buffer.pop();
            self.buffer.push(TimedSensorData { at: last_at, value: merged });
            self.last_pushed = now;
            proof {
                assert(self.buffer@ =~= old(self).entries().update(
                    old(self).entries().len() - 1,
                    TimedSensorData { at: last_at, value: merged },
                ));
            }
        }
    }

    /// Adds a sample recorded now, applying the merge policy.
    ///
    /// The instant is read from the clock; the observable effect is that of
    /// `add_at` at some instant no earlier than the newest cell.
    pub fn add(&mut self, data: T)
        requires
            old(self).wf(),
        ensures
            final(self).wf(),
            final(self).spec_window() == old(self).spec_window(),
            exists|now: u64| #[trigger] old(self).add_relation(*final(self), data, now),
    {
        let now = now_ticks();
        let t = if self.buffer.len() > 0 {
            let last_at = self.buffer[self.buffer.len() - 1].at;
            // A clock that ran backwards would break the buffer's time
            // order; treat such a reading as simultaneous with the newest
            // cell.
            if now < last_at {
                last_at
            } else {
                now
            }
        } else {
            now
        };
        self.add_at(data, t);
    }

    /// The cell at `index`, oldest first.
    pub fn entry(&self, index: usize) -> (r: TimedSensorData<T>)
        requires
            index < self.entries().len(),
        ensures
            r == self.entries()[index as int],
    {
        self.buffer[index]
    }

    /// The most recent cell, or `None` while the store is empty.
    pub fn last(&self) -> (r: Option<TimedSensorData<T>>)
        ensures
            self.entries().len() == 0 ==> r == None::<TimedSensorData<T>>,
            self.entries().len() > 0 ==> r == Some(self.entries().last()),
    {
        let n = self.buffer.len();
        if n == 0 {
            None
        } else {
            Some(self.buffer[n - 1])
        }
    }
}

/// Relies on `embassy_time::Instant::now` for the current tick count.  The
/// value depends on the clock, so nothing is assumed of it.
#[verifier::external_body]
fn now_ticks() -> u64 {
    embassy_time::Instant::now().as_ticks()
}

/// Growth law: with a zero window, every accepted sample opens a new cell,
/// so the store keeps plain ring-buffer history — the count grows by one
/// until capacity, after which it stays at capacity and the oldest cell is
/// evicted.  Duplicates are never merged, since the window never covers
/// them.
pub proof fn lemma_store_growth<T>(
    entries: Seq<TimedSensorData<T>>,
    last_pushed: u64,
    cap: int,
    now: u64,
    data: T,
    v: T,
)
    requires
        0 < cap,
        entries.len() <= cap,
        entries.len() > 0 ==> entries.last().at <= now,
    ensures
        ({
            let step = store_add_step(entries, last_pushed, 0u64, cap, now, data, Some(v));
            &&& entries.len() < cap ==> step.0.len() == entries.len() + 1
            &&& entries.len() == cap ==> step.0.len() == cap && step.0 =~= entries.subrange(
                1,
                entries.len() as int,
            ).push(TimedSensorData { at: now, value: v })
            &&& step.0.last() == TimedSensorData {
                at: now,
                value: if entries.len() == 0 {
                    data
                } else {
                    v
                },
            }
        }),
{
}

/// Collapse law: a sample accepted within the window never grows the store —
/// the newest cell keeps its place and timestamp and takes the merge result,
/// while the true arrival time advances, so a burst of updates inside one
/// window collapses into that window's representative value.
pub proof fn lemma_store_collapse<T>(
    entries: Seq<TimedSensorData<T>>,
    last_pushed: u64,
    window_size: u64,
    cap: int,
    now: u64,
    data: T,
    v: T,
)
    requires
        entries.len() > 0,
        entries.last().at <= now,
        now - entries.last().at < window_size,
    ensures
        ({
            let step = store_add_step(entries, last_pushed, window_size, cap, now, data, Some(v));
            &&& step.0.len() == entries.len()
            &&& step.0.last() == TimedSensorData { at: entries.last().at, value: v }
            &&& (forall|i: int| 0 <= i < entries.len() - 1 ==> step.0[i] == entries[i])
            &&& step.1 == now
        }),
{
}

/// A run of accepted samples, one `store_add_step` per sample, the policy
/// keeping sample `i` as `values[i]` at instant `times[i]`.
pub open spec fn store_add_run<T>(
    entries: Seq<TimedSensorData<T>>,
    last_pushed: u64,
    window_size: u64,
    cap: int,
    times: Seq<u64>,
    values: Seq<T>,
) -> (Seq<TimedSensorData<T>>, u64)
    decreases times.len(),
{
    if times.len() == 0 {
        (entries, last_pushed)
    } else {
        let step = store_add_step(
            entries,
            last_pushed,
            window_size,
            cap,
            times.first(),
            values.first(),
            Some(values.first()),
        );
        store_add_run(step.0, step.1, window_size, cap, times.drop_first(), values.drop_first())
    }
}

/// Collapse law over a whole burst: however many samples arrive within the
/// window of the newest cell — under a policy that keeps each one, such as
/// the pass-through policy — the cell count never moves, every older cell
/// stays untouched, and the newest cell keeps its timestamp and shows the
/// latest sample.
pub proof fn lemma_store_collapse_run<T>(
    entries: Seq<TimedSensorData<T>>,
    last_pushed: u64,
    window_size: u64,
    cap: int,
    times: Seq<u64>,
    values: Seq<T>,
)
    requires
        entries.len() > 0,
        times.len() == values.len(),
        forall|i: int| 0 <= i < times.len() ==> entries.last().at <= #[trigger] times[i],
        forall|i: int| 0 <= i < times.len() ==> #[trigger] times[i] - entries.last().at < window_size,
    ensures
        ({
            let run = store_add_run(entries, last_pushed, window_size, cap, times, values);
            &&& run.0.len() == entries.len()
            &&& run.0.last().at == entries.last().at
            &&& (forall|i: int| 0 <= i < entries.len() - 1 ==> run.0[i] == entries[i])
            &&& (times.len() > 0 ==> run.0.last().value == values.last() && run.1 == times.last())
            &&& (times.len() == 0 ==> run.0 == entries && run.1 == last_pushed)
        }),
    decreases times.len(),
{
    if times.len() > 0 {
        let step = store_add_step(
            entries,
            last_pushed,
            window_size,
            cap,
            times.first(),
            values.first(),
            Some(values.first()),
        );
        lemma_store_collapse(
            entries,
            last_pushed,
            window_size,
            cap,
            times.first(),
            values.first(),
            values.first(),
        );
        assert forall|i: int| 0 <= i < times.drop_first().len() implies step.0.last().at
            <= #[trigger] times.drop_first()[i] && times.drop_first()[i] - step.0.last().at
            < window_size by {
            assert(times.drop_first()[i] == times[i + 1]);
        }
        lemma_store_collapse_run(
            step.0,
            step.1,
            window_size,
            cap,
            times.drop_first(),
            values.drop_first(),
        );
        if times.len() > 1 {
            assert(values.drop_first().last() == values.last());
            assert(times.drop_first().last() == times.last());
        }
    }
}

/// A dropped sample is silent: the policy answering `None` leaves the store
/// exactly as it was.
pub proof fn lemma_store_drop<T>(
    entries: Seq<TimedSensorData<T>>,
    last_pushed: u64,
    window_size: u64,
    cap: int,
    now: u64,
    data: T,
)
    requires
        entries.len() > 0,
    ensures
        store_add_step(entries, last_pushed, window_size, cap, now, data, None) == (
        entries,
        last_pushed,
        ),
{
}

/// Round trip: into an empty store, any sample is accepted unfiltered, and
/// the newest cell immediately reads back exactly that value at exactly
/// that instant.
pub proof fn lemma_store_round_trip<T>(
    last_pushed: u64,
    window_size: u64,
    cap: int,
    now: u64,
    data: T,
    decision: Option<T>,
)
    ensures
        ({
            let step = store_add_step(
                Seq::<TimedSensorData<T>>::empty(),
                last_pushed,
                window_size,
                cap,
                now,
                data,
                decision,
            );
            &&& step.0 =~= seq![TimedSensorData { at: now, value: data }]
            &&& step.0.last().value == data
            &&& step.0.last().at == now
            &&& step.1 == now
        }),
{
}

} // verus!
