use esp_temperature::sync::mutex::AtomicMutex;

#[test]
fn uncontended_lock_is_immediate() {
    let mut m = AtomicMutex::new(5i32);
    assert!(m.poll_lock(1));
    assert_eq!(*m.get(1), 5);
    m.set(1, 9);
    assert_eq!(*m.get(1), 9);
    assert_eq!(m.release(1), None);
}

#[test]
fn contended_lock_registers_and_wakes() {
    let mut m = AtomicMutex::new(0u32);
    assert!(m.poll_lock(1));
    // The second contender fails the flip and registers its interest.
    assert!(!m.poll_lock(2));
    // The holder's release hands back exactly the registered task.
    assert_eq!(m.release(1), Some(2));
    // The woken task's next poll acquires the guard.
    assert!(m.poll_lock(2));
    assert_eq!(m.release(2), None);
}

#[test]
fn second_acquire_fails_while_held() {
    let mut m = AtomicMutex::new(());
    assert!(m.poll_lock(7));
    assert!(!m.poll_lock(7));
    assert!(!m.poll_lock(8));
}

#[test]
fn waiter_slot_keeps_last_registrant_only() {
    let mut m = AtomicMutex::new(());
    assert!(m.poll_lock(1));
    assert!(!m.poll_lock(2));
    assert!(!m.poll_lock(3));
    // Task 2's registration was overwritten: only task 3 is woken.
    assert_eq!(m.release(1), Some(3));
}

#[test]
fn value_survives_handover() {
    let mut m = AtomicMutex::new(10i64);
    assert!(m.poll_lock(1));
    m.set(1, 11);
    m.release(1);
    assert!(m.poll_lock(2));
    assert_eq!(*m.get(2), 11);
}
