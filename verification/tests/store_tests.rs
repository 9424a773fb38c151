use esp_temperature::sensor_data::filter::noop::NoopFilter;
use esp_temperature::sensor_data::SensorDataStore;

#[test]
fn empty_store() {
    let store: SensorDataStore<i32, NoopFilter<i32>, 8> = SensorDataStore::new(0, NoopFilter::new());
    assert_eq!(store.len(), 0);
    assert!(store.is_empty());
    assert!(store.last().is_none());
}

#[test]
fn round_trip_first_sample() {
    let mut store: SensorDataStore<i32, NoopFilter<i32>, 8> =
        SensorDataStore::new(0, NoopFilter::new());
    store.add_at(42, 1000);
    let last = store.last().expect("one sample stored");
    assert_eq!(*last.get(), 42);
    assert_eq!(last.time(), 1000);
    assert_eq!(store.len(), 1);
}

#[test]
fn round_trip_with_clock() {
    let mut store: SensorDataStore<i32, NoopFilter<i32>, 8> =
        SensorDataStore::new(0, NoopFilter::new());
    store.add(-7);
    let last = store.last().expect("one sample stored");
    assert_eq!(*last.get(), -7);
    assert_eq!(store.len(), 1);
}

#[test]
fn zero_window_grows_every_add() {
    let mut store: SensorDataStore<i32, NoopFilter<i32>, 8> =
        SensorDataStore::new(0, NoopFilter::new());
    for i in 0..8 {
        store.add_at(i as i32, i);
        assert_eq!(store.len(), (i + 1) as usize);
    }
    for i in 8..20 {
        store.add_at(i as i32, i);
        assert_eq!(store.len(), 8);
    }
    assert_eq!(*store.last().unwrap().get(), 19);
}

#[test]
fn zero_window_same_value_not_merged() {
    let mut store: SensorDataStore<i32, NoopFilter<i32>, 8> =
        SensorDataStore::new(0, NoopFilter::new());
    store.add_at(5, 10);
    store.add_at(5, 10);
    store.add_at(5, 10);
    assert_eq!(store.len(), 3);
}

#[test]
fn wide_window_collapses_burst() {
    let mut store: SensorDataStore<i32, NoopFilter<i32>, 8> =
        SensorDataStore::new(1_000_000, NoopFilter::new());
    store.add_at(1, 100);
    assert_eq!(store.len(), 1);
    store.add_at(2, 150);
    assert_eq!(store.len(), 1);
    store.add_at(3, 200);
    assert_eq!(store.len(), 1);
    let last = store.last().unwrap();
    // The cell keeps its original timestamp and takes the merge result,
    // which for the pass-through policy is the newest value.
    assert_eq!(*last.get(), 3);
    assert_eq!(last.time(), 100);
}

#[test]
fn window_boundary_opens_new_cell() {
    let mut store: SensorDataStore<i32, NoopFilter<i32>, 8> =
        SensorDataStore::new(50, NoopFilter::new());
    store.add_at(1, 100);
    store.add_at(2, 149);
    assert_eq!(store.len(), 1);
    store.add_at(3, 199);
    assert_eq!(store.len(), 2);
    assert_eq!(store.last().unwrap().time(), 199);
}

#[test]
fn forty_adds_into_capacity_thirty_two() {
    let mut store: SensorDataStore<i32, NoopFilter<i32>, 32> =
        SensorDataStore::new(0, NoopFilter::new());
    for i in 0..40 {
        store.add_at(i as i32, i);
    }
    assert_eq!(store.len(), 32);
    let last = store.last().unwrap();
    assert_eq!(*last.get(), 39);
    // The earliest eight samples were evicted: the oldest cell left is the
    // ninth value added.
    assert_eq!(*store.entry(0).get(), 8);
    assert_eq!(store.entry(0).time(), 8);
}
