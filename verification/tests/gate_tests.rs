//! Behaviour of the concurrency gate: admission is bounded by capacity and
//! slots are reused, never leaked.

use root_s3::Gate;

#[test]
fn new_gate_has_every_slot_free() {
    let g = Gate::new(20);
    assert_eq!(g.capacity, 20);
    assert_eq!(g.available, 20);
}

#[test]
fn admission_stops_at_capacity() {
    let mut g = Gate::new(5);
    for _ in 0..5 {
        assert!(g.try_acquire());
    }
    // the sixth concurrent operation is refused and must wait
    assert!(!g.try_acquire());
    assert_eq!(g.available, 0);
    assert_eq!(g.capacity, 5);
}

#[test]
fn completion_frees_a_slot_for_the_waiter() {
    let mut g = Gate::new(3);
    assert!(g.try_acquire());
    assert!(g.try_acquire());
    assert!(g.try_acquire());
    assert!(!g.try_acquire());
    g.release();
    assert!(g.try_acquire());
    assert!(!g.try_acquire());
}

#[test]
fn slots_are_reused_over_many_operations() {
    let capacity: usize = 4;
    let mut g = Gate::new(capacity);
    // three times capacity sequential operations, each releasing its slot
    // on exit, succeed without ever leaking a slot
    for _ in 0..(3 * capacity) {
        assert!(g.try_acquire());
        g.release();
    }
    assert_eq!(g.available, capacity);
    // and a failing operation releases its slot just like a successful one
    assert!(g.try_acquire());
    g.release();
    assert_eq!(g.available, capacity);
}
