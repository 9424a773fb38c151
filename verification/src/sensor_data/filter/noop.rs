//! The pass-through merge policy.

use core::marker::PhantomData;

use vstd::prelude::*;

use crate::sensor_data::filter::Filter;
use crate::sensor_data::TimedSensorData;

verus! {

/// A policy that never drops and never merges: the newest value always
/// replaces the old one.
#[derive(Debug, Default)]
pub struct NoopFilter<T>(PhantomData<T>);

impl<T> NoopFilter<T> {
    pub fn new() -> (r: Self) {
        NoopFilter(PhantomData)
    }
}

impl<T: Copy> Filter for NoopFilter<T> {
    type Item = T;

    open spec fn filter_spec(
        self,
        previous: TimedSensorData<T>,
        data: TimedSensorData<T>,
        window_size: u64,
    ) -> Option<T> {
        Some(data.value)
    }

    fn filter(
        &mut self,
        _previous: &TimedSensorData<T>,
        data: &TimedSensorData<T>,
        _window_size: u64,
    ) -> (r: Option<T>) {
        Some(*data.get())
    }
}

} // verus!
