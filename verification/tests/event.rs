use stream_machine::{EventSet, Timeout};

#[test]
fn event_set_reports_its_bits() {
    let e = EventSet::new(true, false);
    assert!(e.is_readable());
    assert!(!e.is_writable());

    let all = EventSet::all();
    assert!(all.is_readable() && all.is_writable());

    let none = EventSet::none();
    assert!(!none.is_readable() && !none.is_writable());

    assert_eq!(EventSet::new(true, true), all);
}

#[test]
fn timeout_carries_its_instant() {
    let deadline = Timeout(42);
    assert_eq!(deadline.0, 42);
}
