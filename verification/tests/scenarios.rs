use reactive::{
    AnyProcess, AwaitImmediateProcess, Continuation, ContinuationMut, Delivery, EmitProcess,
    PresentProcess, Process, ProcessMut, Runtime, Signal, Value,
};

#[test]
fn present_on_absent_signal_takes_the_else_branch_in_the_next_instant() {
    let mut runtime: Runtime<()> = Runtime::new();
    let s = runtime.new_signal();
    let never = runtime.new_signal();
    let program = s.present(s.emit_value(()), never.await_immediate());

    program.call_mut(&mut runtime, ContinuationMut::Report { label: 7 });
    assert_eq!(runtime.pending(), 0);
    assert!(!runtime.is_present(s));
    assert!(runtime.run_instant());

    assert_eq!(runtime.instant(), 1);
    assert_eq!(runtime.pending(), 1);
    assert!(runtime.step());
    assert_eq!(runtime.pending(), 0);
    assert!(!runtime.is_present(s));
    assert!(runtime.take_deliveries().is_empty());

    never.emit(&mut runtime, ());
    assert!(runtime.run_instant());
    assert_eq!(runtime.instant(), 2);
    let expected = Delivery {
        label: 7,
        instant: 1,
        process: Some(AnyProcess::Present(PresentProcess {
            signal: s,
            process_if: Box::new(AnyProcess::Emit(EmitProcess { signal: s, value: () })),
            process_else: Box::new(AnyProcess::AwaitImmediate(AwaitImmediateProcess {
                signal: never,
            })),
        })),
        value: Value::Unit,
    };
    assert_eq!(runtime.take_deliveries(), vec![expected]);
}

#[test]
fn present_with_a_branch_that_never_ends_never_resumes() {
    let mut runtime: Runtime<()> = Runtime::new();
    let s = runtime.new_signal();
    let never = runtime.new_signal();
    let program = s.present(s.emit_value(()), never.await_immediate());
    program.call_mut(&mut runtime, ContinuationMut::Report { label: 7 });

    assert!(runtime.run_instant());
    assert_eq!(runtime.instant(), 1);
    assert_eq!(runtime.pending(), 1);
    assert!(runtime.step());
    assert!(!runtime.is_present(s));

    s.emit(&mut runtime, ());
    assert_eq!(runtime.pending(), 1);
    assert!(runtime.run_instant());
    assert_eq!(runtime.instant(), 2);
    assert!(!runtime.is_present(s));

    assert!(runtime.run_instant());
    assert_eq!(runtime.instant(), 3);
    assert_eq!(runtime.pending(), 0);
    assert!(runtime.take_deliveries().is_empty());
}

#[test]
fn present_run_again_each_instant_takes_the_else_branch_each_time() {
    let mut runtime: Runtime<()> = Runtime::new();
    let s = runtime.new_signal();
    let t = runtime.new_signal();
    let mut program = AnyProcess::Present(s.present(s.emit_value(()), t.emit_value(())));
    for round in 0..3u64 {
        program.call_mut(&mut runtime, ContinuationMut::Report { label: round });
        assert!(runtime.run_instant());
        assert!(runtime.take_deliveries().is_empty());
        assert!(runtime.run(16));
        assert!(runtime.is_present(t));
        assert!(!runtime.is_present(s));
        let mut deliveries = runtime.take_deliveries();
        assert_eq!(deliveries.len(), 1);
        let delivery = deliveries.remove(0);
        assert_eq!(delivery.label, round);
        assert_eq!(delivery.instant, 2 * round + 1);
        assert_eq!(delivery.value, Value::Unit);
        program = delivery.process.unwrap();
        assert_eq!(
            program,
            AnyProcess::Present(s.present(s.emit_value(()), t.emit_value(())))
        );
        assert!(runtime.run_instant());
    }
}

#[test]
fn await_resumes_an_instant_after_await_immediate_on_the_same_signal() {
    let mut runtime: Runtime<u64> = Runtime::new();
    let s = runtime.new_signal();
    s.await_next().call(&mut runtime, Continuation { label: 1 });
    s.await_immediate().call(&mut runtime, Continuation { label: 2 });
    assert!(runtime.run_instant());
    assert!(runtime.run_instant());
    assert!(runtime.take_deliveries().is_empty());

    assert_eq!(runtime.instant(), 2);
    s.emit(&mut runtime, 42);
    assert!(runtime.run(16));
    assert_eq!(
        runtime.take_deliveries(),
        vec![Delivery { label: 2, instant: 2, process: None, value: Value::Unit }]
    );

    assert!(runtime.end_instant());
    assert!(runtime.run(16));
    assert_eq!(
        runtime.take_deliveries(),
        vec![Delivery { label: 1, instant: 3, process: None, value: Value::Emitted(42) }]
    );
}

#[test]
fn an_emission_by_a_process_wakes_processes_that_wait() {
    let mut runtime: Runtime<u64> = Runtime::new();
    let s = runtime.new_signal();
    let t = runtime.new_signal();
    t.present(s.emit_value(10), s.emit_value(20)).call(&mut runtime, Continuation { label: 1 });
    s.await_next().call(&mut runtime, Continuation { label: 2 });
    s.await_immediate().call(&mut runtime, Continuation { label: 3 });
    assert!(runtime.run_instant());
    assert!(runtime.take_deliveries().is_empty());

    assert!(runtime.run_instant());
    assert_eq!(
        runtime.take_deliveries(),
        vec![
            Delivery { label: 1, instant: 1, process: None, value: Value::Unit },
            Delivery { label: 3, instant: 1, process: None, value: Value::Unit },
        ]
    );
    assert!(runtime.run_instant());
    assert_eq!(
        runtime.take_deliveries(),
        vec![Delivery { label: 2, instant: 2, process: None, value: Value::Emitted(20) }]
    );
}
