//! Merge policies for the timed store.
//!
//! A filter decides, for each incoming sample, whether it is kept and what
//! value represents it, given the previous sample and the window size.

pub mod noop;

use vstd::prelude::*;

use crate::sensor_data::TimedSensorData;

verus! {

/// A pluggable merge policy.  The policy itself may be stateful; what it
/// answers for given samples is pinned by `filter_spec`.
pub trait Filter: Sized {
    type Item;

    /// The decision this policy makes: `None` to drop the sample, or
    /// `Some(v)` to keep it with representative value `v`.
    spec fn filter_spec(
        self,
        previous: TimedSensorData<Self::Item>,
        data: TimedSensorData<Self::Item>,
        window_size: u64,
    ) -> Option<Self::Item>;

    /// Filters a new sample against the previous stored one.
    ///
    /// `previous` carries the true arrival time of the last accepted sample
    /// (which may differ from its cell's displayed timestamp after merges),
    /// so the policy can reason about real elapsed time.
    fn filter(
        &mut self,
        previous: &TimedSensorData<Self::Item>,
        data: &TimedSensorData<Self::Item>,
        window_size: u64,
    ) -> (r: Option<Self::Item>)
        ensures
            r == old(self).filter_spec(*previous, *data, window_size),
    ;
}

} // verus!
