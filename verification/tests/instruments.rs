use network_metrics::instruments::{IntCounter, IntGauge};
use network_metrics::registry::{
    counter_or_inert, gauge_or_inert, try_create_int_counter, try_create_int_gauge, Registry,
    RegistrationError,
};

#[test]
fn counter_value_is_sum_of_increments() {
    let mut reg = Registry::new();
    let mut c: IntCounter =
        try_create_int_counter(&mut reg, "events_total", "Total events.").unwrap();
    assert_eq!(c.get(), 0);
    c.inc();
    c.inc_by(5);
    c.inc();
    c.inc_by(0);
    assert_eq!(c.get(), 7);
}

#[test]
fn counter_never_decreases() {
    let mut reg = Registry::new();
    let mut c = try_create_int_counter(&mut reg, "mono_total", "Monotonic.").unwrap();
    let mut last = c.get();
    for step in [1i64, 0, 3, 2] {
        c.inc_by(step);
        assert!(c.get() >= last);
        last = c.get();
    }
}

#[test]
fn inert_counter_skips_updates() {
    let mut reg = Registry::new();
    let _first = try_create_int_counter(&mut reg, "dup_total", "First.").unwrap();
    let second = try_create_int_counter(&mut reg, "dup_total", "Second.");
    let mut inert = counter_or_inert(second);
    inert.inc();
    inert.inc_by(10);
    assert_eq!(inert.get(), 0);
}

#[test]
fn gauge_reads_last_set() {
    let mut reg = Registry::new();
    let mut g: IntGauge = try_create_int_gauge(&mut reg, "level", "Level.").unwrap();
    g.set(5);
    g.set(-3);
    g.set(42);
    assert_eq!(g.get(), 42);
}

#[test]
fn gauge_inc_dec() {
    let mut reg = Registry::new();
    let mut g = try_create_int_gauge(&mut reg, "depth", "Depth.").unwrap();
    g.inc();
    g.inc();
    g.dec();
    assert_eq!(g.get(), 1);
    g.set(-7);
    assert_eq!(g.get(), -7);
}

#[test]
fn inert_gauge_skips_updates() {
    let mut reg = Registry::new();
    let _first = try_create_int_gauge(&mut reg, "g", "First.").unwrap();
    let mut inert = gauge_or_inert(try_create_int_gauge(&mut reg, "g", "Second."));
    inert.set(99);
    assert_eq!(inert.get(), 0);
}

#[test]
fn registration_collision_keeps_first_handle_valid() {
    let mut reg = Registry::new();
    let first = try_create_int_counter(&mut reg, "shared_name", "First.");
    let second = try_create_int_counter(&mut reg, "shared_name", "Second.");
    let mut c = first.unwrap();
    assert!(matches!(second, Err(RegistrationError::DuplicateName)));
    c.inc();
    assert_eq!(c.get(), 1);
}

#[test]
fn distinct_names_both_register() {
    let mut reg = Registry::new();
    assert!(try_create_int_counter(&mut reg, "a_total", "A.").is_ok());
    assert!(try_create_int_gauge(&mut reg, "b_level", "B.").is_ok());
    assert!(try_create_int_counter(&mut reg, "a_total", "A again.").is_err());
}

#[test]
fn gauge_inc_by_moves_by_the_given_amount() {
    let mut reg = Registry::new();
    let mut g = try_create_int_gauge(&mut reg, "queued", "Queued.").unwrap();
    g.inc_by(10);
    g.inc_by(-4);
    assert_eq!(g.get(), 6);
}
