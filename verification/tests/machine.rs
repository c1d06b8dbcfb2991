use stream_machine::Async;

#[test]
fn map_transforms_continuing_machine() {
    let a: Async<u32, &'static str> = Async::Continue(20, "v");
    match a.map(|m| m + 1) {
        Async::Continue(m, v) => {
            assert_eq!(m, 21);
            assert_eq!(v, "v");
        }
        Async::Stop => panic!("unexpected stop"),
    }
}

#[test]
fn map_propagates_stop_without_invoking() {
    let a: Async<u32, ()> = Async::Stop;
    let r = a.map(|_| panic!("must not be invoked"));
    assert!(!r.is_continue());
}

#[test]
fn map_result_transforms_value() {
    let a: Async<u32, u32> = Async::Continue(1, 10);
    match a.map_result(|v| v * 3) {
        Async::Continue(m, v) => {
            assert_eq!(m, 1);
            assert_eq!(v, 30);
        }
        Async::Stop => panic!("unexpected stop"),
    }
}

#[test]
fn and_then_chains_while_continuing() {
    let a: Async<u32, ()> = Async::Continue(5, ());
    match a.and_then(|m| Async::Continue(m * 2, ())) {
        Async::Continue(m, ()) => assert_eq!(m, 10),
        Async::Stop => panic!("unexpected stop"),
    }
}

#[test]
fn and_then_short_circuits_after_stop() {
    let stopped: Async<u32, ()> = Async::Continue(5, ()).and_then(|_| Async::Stop);
    assert!(!stopped.is_continue());
    let r = stopped.and_then(|_| panic!("a later step must never run"));
    assert!(!r.is_continue());
}

#[test]
fn done_fires_terminal_exactly_once_when_continuing() {
    let mut fired = 0;
    let a: Async<u32, ()> = Async::Continue(7, ());
    a.done(|m| {
        assert_eq!(m, 7);
        fired += 1;
    });
    assert_eq!(fired, 1);
}

#[test]
fn done_fires_nothing_after_stop() {
    let a: Async<u32, ()> = Async::Stop;
    a.done(|_| panic!("terminal must not fire on a stopped chain"));
}
