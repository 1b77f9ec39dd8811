use reactive::{
    AwaitImmediateProcess, Continuation, Delivery, Process, Runtime, SignalRuntimeRef, Value,
};

fn unit(label: u64, instant: u64) -> Delivery<u64> {
    Delivery { label, instant, process: None, value: Value::Unit }
}

fn emitted(label: u64, instant: u64, value: u64) -> Delivery<u64> {
    Delivery { label, instant, process: None, value: Value::Emitted(value) }
}

#[test]
fn a_new_runtime_is_idle_at_instant_zero() {
    let mut runtime: Runtime<u64> = Runtime::new();
    assert_eq!(runtime.instant(), 0);
    assert_eq!(runtime.pending(), 0);
    assert!(!runtime.step());
    assert!(runtime.take_deliveries().is_empty());
}

#[test]
fn new_signals_are_numbered_in_order_and_unknown() {
    let mut runtime: Runtime<u64> = Runtime::new();
    let a = runtime.new_signal();
    let b = runtime.new_signal();
    let c = runtime.new_signal();
    assert_eq!(a, SignalRuntimeRef { id: 0 });
    assert_eq!(b, SignalRuntimeRef { id: 1 });
    assert_eq!(c, SignalRuntimeRef { id: 2 });
    for signal in [a, b, c] {
        assert!(!runtime.is_present(signal));
        assert_eq!(runtime.value(signal), None);
    }
}

#[test]
fn an_emitted_signal_stays_present_until_the_instant_closes() {
    let mut runtime: Runtime<u64> = Runtime::new();
    let s = runtime.new_signal();
    let t = runtime.new_signal();
    s.emit(&mut runtime, 4);
    assert!(runtime.is_present(s));
    assert!(!runtime.is_present(t));

    t.emit(&mut runtime, 1);
    s.on_present(&mut runtime, Continuation { label: 1 });
    s.later_on_present(&mut runtime, Continuation { label: 2 });
    s.later_on_absent(&mut runtime, Continuation { label: 3 });
    let _ = runtime.new_signal();
    assert!(runtime.run(8));
    assert!(runtime.is_present(s));
    assert_eq!(runtime.instant(), 0);

    assert!(runtime.end_instant());
    assert_eq!(runtime.instant(), 1);
    assert!(!runtime.is_present(s));
    assert!(!runtime.is_present(t));
    assert_eq!(runtime.value(s), None);
}

#[test]
fn a_signal_keeps_the_value_of_its_last_emission() {
    let mut runtime: Runtime<u64> = Runtime::new();
    let s = runtime.new_signal();
    s.emit(&mut runtime, 5);
    assert_eq!(runtime.value(s), Some(5));
    s.emit(&mut runtime, 9);
    assert_eq!(runtime.value(s), Some(9));
    assert!(runtime.is_present(s));
}

#[test]
fn on_present_before_the_emission_fires_in_the_instant_of_the_emission() {
    let mut runtime: Runtime<u64> = Runtime::new();
    let s = runtime.new_signal();
    s.on_present(&mut runtime, Continuation { label: 11 });
    assert_eq!(runtime.pending(), 0);
    assert!(runtime.take_deliveries().is_empty());

    s.emit(&mut runtime, 3);
    assert_eq!(runtime.pending(), 1);
    assert!(!runtime.end_instant());
    assert_eq!(runtime.instant(), 0);

    assert!(runtime.step());
    assert_eq!(runtime.take_deliveries(), vec![unit(11, 0)]);
    assert!(runtime.end_instant());
}

#[test]
fn on_present_after_the_emission_fires_at_once() {
    let mut runtime: Runtime<u64> = Runtime::new();
    let s = runtime.new_signal();
    s.emit(&mut runtime, 3);
    s.on_present(&mut runtime, Continuation { label: 12 });
    assert_eq!(runtime.pending(), 0);
    assert_eq!(runtime.take_deliveries(), vec![unit(12, 0)]);
}

#[test]
fn on_present_waits_over_instants_without_an_emission() {
    let mut runtime: Runtime<u64> = Runtime::new();
    let s = runtime.new_signal();
    s.on_present(&mut runtime, Continuation { label: 13 });
    assert!(runtime.run_instant());
    assert!(runtime.run_instant());
    assert!(runtime.take_deliveries().is_empty());

    s.emit(&mut runtime, 1);
    assert!(runtime.run_instant());
    assert_eq!(runtime.take_deliveries(), vec![unit(13, 2)]);

    s.emit(&mut runtime, 1);
    assert!(runtime.run_instant());
    assert!(runtime.take_deliveries().is_empty());
}

#[test]
fn later_on_absent_never_fires_for_an_instant_with_an_emission() {
    let mut runtime: Runtime<u64> = Runtime::new();
    let s = runtime.new_signal();
    s.later_on_absent(&mut runtime, Continuation { label: 21 });
    s.emit(&mut runtime, 1);
    s.later_on_absent(&mut runtime, Continuation { label: 22 });
    s.emit(&mut runtime, 2);
    s.emit(&mut runtime, 3);
    assert!(runtime.run_instant());
    assert_eq!(runtime.pending(), 0);
    assert!(runtime.run_instant());
    assert!(runtime.run_instant());
    assert!(runtime.take_deliveries().is_empty());
}

#[test]
fn later_on_absent_fires_at_the_start_of_the_next_instant() {
    let mut runtime: Runtime<u64> = Runtime::new();
    let s = runtime.new_signal();
    let t = runtime.new_signal();
    s.later_on_absent(&mut runtime, Continuation { label: 23 });
    t.emit(&mut runtime, 8);
    assert_eq!(runtime.pending(), 0);
    assert!(!runtime.step());
    assert!(runtime.take_deliveries().is_empty());

    assert!(runtime.end_instant());
    assert_eq!(runtime.instant(), 1);
    assert_eq!(runtime.pending(), 1);
    assert!(runtime.take_deliveries().is_empty());
    assert!(runtime.step());
    assert_eq!(runtime.take_deliveries(), vec![unit(23, 1)]);
}

#[test]
fn later_on_absent_speaks_of_the_instant_of_its_registration() {
    let mut runtime: Runtime<u64> = Runtime::new();
    let s = runtime.new_signal();
    s.emit(&mut runtime, 1);
    assert!(runtime.run_instant());
    s.later_on_absent(&mut runtime, Continuation { label: 24 });
    assert!(runtime.run_instant());
    assert_eq!(runtime.instant(), 2);
    assert!(runtime.run(8));
    assert_eq!(runtime.take_deliveries(), vec![unit(24, 2)]);
}

#[test]
fn later_on_present_fires_in_the_next_instant_with_the_last_value() {
    let mut runtime: Runtime<u64> = Runtime::new();
    let s = runtime.new_signal();
    s.later_on_present(&mut runtime, Continuation { label: 31 });
    s.emit(&mut runtime, 5);
    s.later_on_present(&mut runtime, Continuation { label: 32 });
    s.emit(&mut runtime, 9);
    assert!(runtime.run(8));
    assert!(runtime.take_deliveries().is_empty());

    assert!(runtime.end_instant());
    assert_eq!(runtime.pending(), 2);
    assert!(runtime.run(8));
    assert_eq!(runtime.take_deliveries(), vec![emitted(31, 1, 9), emitted(32, 1, 9)]);
    assert!(runtime.run_instant());
    assert!(runtime.take_deliveries().is_empty());
}

#[test]
fn later_on_present_waits_over_instants_without_an_emission() {
    let mut runtime: Runtime<u64> = Runtime::new();
    let s = runtime.new_signal();
    s.later_on_present(&mut runtime, Continuation { label: 33 });
    assert!(runtime.run_instant());
    assert!(runtime.run_instant());
    assert!(runtime.take_deliveries().is_empty());
    s.emit(&mut runtime, 77);
    assert!(runtime.run_instant());
    assert_eq!(runtime.instant(), 3);
    assert!(runtime.run(8));
    assert_eq!(runtime.take_deliveries(), vec![emitted(33, 3, 77)]);
}

#[test]
fn callbacks_of_one_event_fire_in_the_order_of_registration() {
    let mut runtime: Runtime<u64> = Runtime::new();
    let s = runtime.new_signal();
    for label in [3, 1, 2] {
        s.on_present(&mut runtime, Continuation { label });
    }
    s.emit(&mut runtime, 0);
    assert!(runtime.run(8));
    assert_eq!(runtime.take_deliveries(), vec![unit(3, 0), unit(1, 0), unit(2, 0)]);
}

#[test]
fn the_close_wakes_signal_by_signal_in_the_order_of_registration() {
    let mut runtime: Runtime<u64> = Runtime::new();
    let a = runtime.new_signal();
    let b = runtime.new_signal();
    b.later_on_absent(&mut runtime, Continuation { label: 1 });
    a.later_on_present(&mut runtime, Continuation { label: 2 });
    b.later_on_absent(&mut runtime, Continuation { label: 3 });
    a.later_on_present(&mut runtime, Continuation { label: 4 });
    a.emit(&mut runtime, 6);
    assert!(runtime.run_instant());
    assert!(runtime.run(8));
    assert_eq!(
        runtime.take_deliveries(),
        vec![emitted(2, 1, 6), emitted(4, 1, 6), unit(1, 1), unit(3, 1)]
    );
}

#[test]
fn a_handle_that_the_runtime_does_not_know_is_inert() {
    let mut runtime: Runtime<u64> = Runtime::new();
    let s = runtime.new_signal();
    let stranger = SignalRuntimeRef { id: 5 };
    stranger.emit(&mut runtime, 1);
    assert!(!runtime.is_present(stranger));
    assert_eq!(runtime.value(stranger), None);
    stranger.on_present(&mut runtime, Continuation { label: 1 });
    stranger.later_on_present(&mut runtime, Continuation { label: 2 });
    stranger.later_on_absent(&mut runtime, Continuation { label: 3 });
    AwaitImmediateProcess { signal: stranger }.call(&mut runtime, Continuation { label: 4 });
    assert!(runtime.run_instant());
    assert!(runtime.run_instant());
    assert!(runtime.take_deliveries().is_empty());
    assert!(!runtime.is_present(s));
}

#[test]
fn the_instant_does_not_close_while_a_callback_is_due() {
    let mut runtime: Runtime<u64> = Runtime::new();
    let s = runtime.new_signal();
    s.on_present(&mut runtime, Continuation { label: 1 });
    s.on_present(&mut runtime, Continuation { label: 2 });
    s.emit(&mut runtime, 0);
    assert!(!runtime.end_instant());
    assert!(!runtime.run(1));
    assert!(!runtime.end_instant());
    assert_eq!(runtime.instant(), 0);
    assert_eq!(runtime.pending(), 1);
    assert!(runtime.is_present(s));
    assert!(runtime.run_instant());
    assert_eq!(runtime.instant(), 1);
    assert_eq!(runtime.take_deliveries(), vec![unit(1, 0), unit(2, 0)]);
}

#[test]
fn run_fires_no_more_callbacks_than_its_fuel() {
    let mut runtime: Runtime<u64> = Runtime::new();
    let s = runtime.new_signal();
    for label in 0..3 {
        s.on_present(&mut runtime, Continuation { label });
    }
    s.emit(&mut runtime, 0);
    assert!(!runtime.run(0));
    assert_eq!(runtime.pending(), 3);
    assert!(!runtime.run(2));
    assert_eq!(runtime.pending(), 1);
    assert_eq!(runtime.take_deliveries(), vec![unit(0, 0), unit(1, 0)]);
    assert!(runtime.run(5));
    assert_eq!(runtime.take_deliveries(), vec![unit(2, 0)]);
}

#[test]
fn settle_fires_everything_that_is_due_and_what_that_makes_due() {
    let mut runtime: Runtime<u64> = Runtime::new();
    let a = runtime.new_signal();
    let b = runtime.new_signal();
    b.on_present(&mut runtime, Continuation { label: 2 });
    a.on_present(&mut runtime, Continuation { label: 1 });
    a.emit(&mut runtime, 0);
    b.emit(&mut runtime, 0);
    assert_eq!(runtime.pending(), 2);
    runtime.settle();
    assert_eq!(runtime.pending(), 0);
    assert_eq!(runtime.instant(), 0);
    assert_eq!(runtime.take_deliveries(), vec![unit(1, 0), unit(2, 0)]);
    runtime.settle();
    assert!(runtime.take_deliveries().is_empty());
}

#[test]
fn deliveries_are_handed_out_once() {
    let mut runtime: Runtime<u64> = Runtime::new();
    let s = runtime.new_signal();
    s.emit(&mut runtime, 2);
    s.on_present(&mut runtime, Continuation { label: 1 });
    assert_eq!(runtime.take_deliveries(), vec![unit(1, 0)]);
    assert!(runtime.take_deliveries().is_empty());
    assert!(runtime.is_present(s));
}
