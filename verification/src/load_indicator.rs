//! Scheduler load estimator.
//!
//! Two hooks instrument a cooperative run loop: `before_poll` fires right
//! before the scheduler resumes any ready task, `on_idle` fires when the
//! scheduler has no ready task and is about to wait.  The span from
//! `before_poll` to `on_idle` is the busy part of a cycle; the rest of the
//! cycle is idle.  Each full cycle yields an instantaneous load percentage
//! that is blended with the previously published value, weighted by the
//! cycle duration, and the blend is published as a single byte in [0, 100].

use vstd::prelude::*;

verus! {

/// Clamps a cycle duration (microseconds) into 10..=1000 and scales it to a
/// smoothing weight in 1..=100: the share (percent) of the new sample in the
/// published blend.  Long cycles let the new sample dominate; very short
/// cycles smooth heavily against poll-to-poll jitter.
pub open spec fn smoothing_weight(cycle_micros: int) -> int {
    (if cycle_micros < 10 {
        10
    } else if cycle_micros > 1000 {
        1000
    } else {
        cycle_micros
    }) / 10
}

/// The published value after one cycle: the previous value and the new
/// instantaneous sample, mixed according to `smoothing_weight`.
pub open spec fn blended_load(prev: int, current: int, cycle_micros: int) -> int {
    let w = smoothing_weight(cycle_micros);
    (100 - w) * prev / 100 + w * current / 100
}

/// Instantaneous load of one cycle running from `poll` to `now`, busy from
/// `poll` to `idle` if an idle stamp was recorded.  A cycle in which the
/// scheduler never went idle counts as fully busy, and so does a
/// zero-duration cycle (indeterminate timing is treated as worst case).
pub open spec fn instantaneous_load(poll: int, idle: Option<u64>, now: int) -> int {
    match idle {
        Some(i) => if now == poll {
            100
        } else {
            (i - poll) * 100 / (now - poll)
        },
        None => 100,
    }
}

/// The value published by `before_poll` at time `now`, given the previous
/// published value and the stamps recorded during the cycle.  The very first
/// poll has no cycle to measure and publishes nothing new.
pub open spec fn next_load(prev: int, poll: Option<u64>, idle: Option<u64>, now: int) -> int {
    match poll {
        Some(p) => blended_load(prev, instantaneous_load(p as int, idle, now), now - p),
        None => prev,
    }
}

/// Scheduler instrumentation state: the time of the last `before_poll`, the
/// idle stamp of the current cycle, and the published load byte.
///
/// The byte has a single writer (the scheduler hook); readers take it
/// through `read_load` without locking.
pub struct LoadExecutorHook {
    poll_time: Option<u64>,
    idle_time: Option<u64>,
    load: u8,
}

impl LoadExecutorHook {
    /// The published load byte.
    pub closed spec fn spec_load(self) -> u8 {
        self.load
    }

    /// The time (microseconds) of the most recent `before_poll`.
    pub closed spec fn spec_poll_time(self) -> Option<u64> {
        self.poll_time
    }

    /// The idle stamp of the current cycle, if `on_idle` has fired.
    pub closed spec fn spec_idle_time(self) -> Option<u64> {
        self.idle_time
    }

    /// The published value stays a percentage and the stamps stay ordered.
    pub open spec fn wf(self) -> bool {
        &&& self.spec_load() <= 100
        &&& (self.spec_poll_time() matches Some(p) ==> (self.spec_idle_time() matches Some(i)
            ==> p <= i))
    }

    pub fn new(initial_load: u8) -> (r: Self)
        requires
            initial_load <= 100,
        ensures
            r.wf(),
            r.spec_load() == initial_load,
            r.spec_poll_time() == None::<u64>,
            r.spec_idle_time() == None::<u64>,
    {
        LoadExecutorHook { poll_time: None, idle_time: None, load: initial_load }
    }

    /// Lock-free read of the published load percentage.
    pub fn read_load(&self) -> (r: u8)
        requires
            self.wf(),
        ensures
            r == self.spec_load(),
            r <= 100,
    {
        self.load
    }

    /// Blends `current_load` into the published byte, weighting the new
    /// sample by the cycle duration.
    fn update_load(&mut self, current_load: u8, time_micros: u64)
        requires
            old(self).wf(),
            current_load <= 100,
        ensures
            final(self).wf(),
            final(self).spec_load() as int == blended_load(
                old(self).spec_load() as int,
                current_load as int,
                time_micros as int,
            ),
            final(self).spec_poll_time() == old(self).spec_poll_time(),
            final(self).spec_idle_time() == old(self).spec_idle_time(),
    {
        let prev_load = self.load as u64;
        let clamped = if time_micros < 10 {
            10
        } else if time_micros > 1000 {
            1000
        } else {
            time_micros
        };
        let filter_coff = clamped / 10;

        let oldest_factor = 100 - filter_coff;
        let newest_factor = filter_coff;

        proof {
            assert(oldest_factor * prev_load <= 100 * 255) by (nonlinear_arith)
                requires oldest_factor <= 100, prev_load <= 255;
            assert(newest_factor * (current_load as u64) <= 100 * 255) by (nonlinear_arith)
                requires newest_factor <= 100, current_load <= 255;
        }
        let oldest = oldest_factor * prev_load / 100;
        let newest = newest_factor * (current_load as u64) / 100;

        proof {
            lemma_blend_parts_bounded(
                self.load as int,
                current_load as int,
                filter_coff as int,
            );
        }
        let new_load = oldest + newest;

        self.load = new_load as u8;
    }

    /// Cycle boundary: closes the cycle started by the previous call (if
    /// any), publishes the blended load, and stamps the new cycle's start.
    pub fn before_poll(&mut self, now: u64)
        requires
            old(self).wf(),
            old(self).spec_poll_time() matches Some(p) ==> p <= now,
            old(self).spec_idle_time() matches Some(i) ==> i <= now,
        ensures
            final(self).wf(),
            final(self).spec_poll_time() == Some(now),
            final(self).spec_idle_time() == None::<u64>,
            final(self).spec_load() as int == next_load(
                old(self).spec_load() as int,
                old(self).spec_poll_time(),
                old(self).spec_idle_time(),
                now as int,
            ),
    {
        if let Some(stored_poll_time) = self.poll_time {
            let full_time = now - stored_poll_time;
            let current: u8 = match self.idle_time {
                Some(stored_idle_time) => {
                    if full_time > 0 {
                        let busy = (stored_idle_time - stored_poll_time) as u128;
                        proof {
                            lemma_instantaneous_bounded(stored_poll_time, stored_idle_time, now);
                        }
                        (busy * 100 / (full_time as u128)) as u8
                    } else {
                        100
                    }
                },
                None => 100,
            };
            self.idle_time = None;
            self.update_load(current, full_time);
        } else {
            // A first poll opens a fresh cycle; any stamp from before it
            // belongs to no cycle and is discarded.
            self.idle_time = None;
        }

        self.poll_time = Some(now);
    }

    /// Idle boundary: stamps the moment the scheduler ran out of ready work.
    pub fn on_idle(&mut self, now: u64)
        requires
            old(self).wf(),
            old(self).spec_poll_time() matches Some(p) ==> p <= now,
        ensures
            final(self).wf(),
            final(self).spec_idle_time() == Some(now),
            final(self).spec_poll_time() == old(self).spec_poll_time(),
            final(self).spec_load() == old(self).spec_load(),
    {
        self.idle_time = Some(now);
    }
}

/// The smoothing weight always lands in 1..=100.
pub proof fn lemma_weight_bounds(cycle_micros: int)
    ensures
        1 <= smoothing_weight(cycle_micros) <= 100,
{
}

/// Both halves of the blend stay within their factors, so the blend of two
/// percentages is a percentage.
proof fn lemma_blend_parts_bounded(prev: int, current: int, w: int)
    requires
        0 <= prev <= 100,
        0 <= current <= 100,
        1 <= w <= 100,
    ensures
        0 <= (100 - w) * prev / 100 <= 100 - w,
        0 <= w * current / 100 <= w,
{
    assert((100 - w) * prev <= (100 - w) * 100) by (nonlinear_arith)
        requires 0 <= prev <= 100, 1 <= w <= 100;
    assert(w * current <= w * 100) by (nonlinear_arith)
        requires 0 <= current <= 100, 1 <= w <= 100;
    assert((100 - w) * prev / 100 <= (100 - w) * 100 / 100) by {
        vstd::arithmetic::div_mod::lemma_div_is_ordered((100 - w) * prev, (100 - w) * 100, 100);
    }
    assert(w * current / 100 <= w * 100 / 100) by {
        vstd::arithmetic::div_mod::lemma_div_is_ordered(w * current, w * 100, 100);
    }
    assert((100 - w) * prev >= 0) by (nonlinear_arith)
        requires 0 <= prev, w <= 100;
    assert(w * current >= 0) by (nonlinear_arith)
        requires 0 <= current, 1 <= w;
}

/// A busy span no longer than its cycle yields an instantaneous load
/// within [0, 100].
proof fn lemma_instantaneous_bounded(poll: u64, idle: u64, now: u64)
    requires
        poll <= idle <= now,
    ensures
        0 <= instantaneous_load(poll as int, Some(idle), now as int) <= 100,
{
    if now != poll {
        assert((idle - poll) * 100 <= (now - poll) * 100) by (nonlinear_arith)
            requires poll <= idle <= now;
        assert(((idle - poll) as int) * 100 / ((now - poll) as int)
            <= ((now - poll) as int) * 100 / ((now - poll) as int)) by {
            vstd::arithmetic::div_mod::lemma_div_is_ordered(
                ((idle - poll) as int) * 100,
                ((now - poll) as int) * 100,
                (now - poll) as int,
            );
        }
        assert(((now - poll) as int) * 100 / ((now - poll) as int) == 100) by (nonlinear_arith)
            requires now - poll >= 1;
        assert(((idle - poll) as int) * 100 >= 0) by (nonlinear_arith)
            requires poll <= idle;
        vstd::arithmetic::div_mod::lemma_div_is_ordered(
            0,
            ((idle - poll) as int) * 100,
            (now - poll) as int,
        );
    }
}

/// The blend of two percentages is again a percentage: the published load
/// can never leave [0, 100].
pub proof fn lemma_load_bounds(prev: int, current: int, cycle_micros: int)
    requires
        0 <= prev <= 100,
        0 <= current <= 100,
    ensures
        0 <= blended_load(prev, current, cycle_micros) <= 100,
{
    lemma_weight_bounds(cycle_micros);
    lemma_blend_parts_bounded(prev, current, smoothing_weight(cycle_micros));
}

/// A cycle with no idle stamp is fully busy by definition, and blending a
/// fully-busy sample into an already fully-busy value keeps it at 100.
pub proof fn lemma_no_idle_full_load(poll: int, now: int, cycle_micros: int)
    ensures
        instantaneous_load(poll, None, now) == 100,
        blended_load(100, 100, cycle_micros) == 100,
{
    lemma_weight_bounds(cycle_micros);
    let w = smoothing_weight(cycle_micros);
    assert((100 - w) * 100 / 100 == 100 - w) by (nonlinear_arith)
        requires 1 <= w <= 100;
    assert(w * 100 / 100 == w) by (nonlinear_arith)
        requires 1 <= w <= 100;
}

/// A zero-duration cycle counts as fully busy, never as idle.
pub proof fn lemma_zero_cycle_full_load(poll: int, idle: Option<u64>)
    ensures
        instantaneous_load(poll, idle, poll) == 100,
{
}

/// A cycle that went idle immediately after polling measures zero load, and
/// blending zero strictly shrinks any positive published value: repeated
/// all-idle cycles trend the load toward 0.
pub proof fn lemma_immediate_idle_decays(poll: u64, now: u64, prev: int, cycle_micros: int)
    requires
        poll < now,
        0 <= prev <= 100,
    ensures
        instantaneous_load(poll as int, Some(poll), now as int) == 0,
        blended_load(prev, 0, cycle_micros) <= prev,
        prev > 0 ==> blended_load(prev, 0, cycle_micros) < prev,
        blended_load(0, 0, cycle_micros) == 0,
{
    assert(0nat * 100 == 0) by (nonlinear_arith);
    lemma_weight_bounds(cycle_micros);
    let w = smoothing_weight(cycle_micros);
    assert((100 - w) * prev / 100 <= prev) by (nonlinear_arith)
        requires 0 <= prev <= 100, 1 <= w <= 100;
    if prev > 0 {
        assert((100 - w) * prev < 100 * prev) by (nonlinear_arith)
            requires 0 < prev, 1 <= w <= 100;
        assert((100 - w) * prev / 100 < prev) by (nonlinear_arith)
            requires 0 <= (100 - w) * prev, (100 - w) * prev < 100 * prev, 0 < prev;
    }
}

/// Converts a load percentage into an LED brightness channel value.
pub fn load_brightness(load: u8) -> (r: u8)
    requires
        load <= 100,
    ensures
        r as int == load * 255 / 100,
{
    ((load as u16) * 255 / 100) as u8
}

} // verus!
