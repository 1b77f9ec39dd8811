//! What holds of signals and processes in every state of a runtime.

use crate::continuation::{
    Branch, Callback, Continuation, ContinuationMut, Delivery, Parked, Task, Value,
};
use crate::model::{scheduled, RuntimeView, SignalView};
use crate::order::{
    advances, called_extends, called_mut_extends, cells_settle, fired_extends, signal_advances,
};
use crate::progress::every_instant_ends;
use crate::process::{
    AnyProcess, AwaitImmediateProcess, AwaitProcess, EmitProcess, PresentProcess,
};
use crate::semantics::present_of;
use crate::signal::SignalRuntimeRef;
use vstd::prelude::*;

verus! {

/// Position in the queue of the next instant of the first callback that the
/// close of the instant makes due for `signal`.
pub open spec fn offset<E>(rt: RuntimeView<E>, signal: SignalRuntimeRef) -> int {
    scheduled(rt.signals, signal.id as int).len() as int
}

proof fn scheduled_grows<E>(signals: Seq<SignalView<E>>, m: int, n: int)
    requires
        0 <= m <= n,
    ensures
        scheduled(signals, m).is_prefix_of(scheduled(signals, n)),
    decreases n - m,
{
    if m < n {
        scheduled_grows(signals, m, n - 1);
    }
}

proof fn scheduled_agrees<E>(a: Seq<SignalView<E>>, b: Seq<SignalView<E>>, n: int)
    requires
        forall|i: int| 0 <= i < n ==> (#[trigger] a[i]).woken() == b[i].woken(),
    ensures
        scheduled(a, n) == scheduled(b, n),
    decreases n,
{
    if n > 0 {
        scheduled_agrees(a, b, n - 1);
    }
}

/// The close of an instant makes due, at the start of the next instant, what
/// the signal has woken, in the order of registration.
pub proof fn close_wakes<E>(rt: RuntimeView<E>, signal: SignalRuntimeRef, k: int)
    requires
        rt.can_end(),
        rt.has_signal(signal),
        0 <= k < rt.signals[signal.id as int].woken().len(),
    ensures
        rt.end_instant().instant == rt.instant + 1,
        offset(rt, signal) + k < rt.end_instant().ready.len(),
        rt.end_instant().ready[offset(rt, signal) + k] == rt.signals[signal.id as int].woken()[k],
{
    let id = signal.id as int;
    let part = scheduled(rt.signals, id + 1);
    let all = scheduled(rt.signals, rt.signals.len() as int);
    scheduled_grows(rt.signals, id + 1, rt.signals.len() as int);
    assert(all[offset(rt, signal) + k] == part[offset(rt, signal) + k]);
}

/// The close of an instant keeps the cells, what was delivered, and for each
/// signal those who wait for its presence in their own instant.
pub proof fn close_keeps<E>(rt: RuntimeView<E>, signal: SignalRuntimeRef)
    requires
        rt.has_signal(signal),
    ensures
        rt.end_instant().cells == rt.cells,
        rt.end_instant().deliveries == rt.deliveries,
        rt.end_instant().has_signal(signal),
        rt.end_instant().signals[signal.id as int].on_present
            == rt.signals[signal.id as int].on_present,
        !rt.is_present(signal) ==> rt.end_instant().signals[signal.id as int].later_on_present
            == rt.signals[signal.id as int].later_on_present,
        rt.can_end() ==> !rt.end_instant().is_present(signal),
{
}

/// Monotonic presence. Once a signal is emitted it is present, with the
/// number of the instant unchanged, in every state that may follow within
/// the instant: whatever is emitted, registered, called or fired.
pub proof fn presence_is_monotonic<E>(
    rt: RuntimeView<E>,
    signal: SignalRuntimeRef,
    value: E,
    later: RuntimeView<E>,
)
    requires
        rt.has_signal(signal),
        advances(rt.emit(signal, value), later),
    ensures
        rt.emit(signal, value).is_present(signal),
        rt.emit(signal, value).signals[signal.id as int].value == Some(value),
        later.is_present(signal),
        later.instant == rt.instant,
{
    let emitted = rt.emit(signal, value);
    assert(signal_advances(
        emitted.signals[signal.id as int],
        later.signals[signal.id as int],
    ));
}

/// An emission makes those due who waited for the presence of the signal:
/// in the same instant, in the order of their registration, behind what was
/// due already. The instant does not close while a callback is due.
pub proof fn emission_wakes<E>(rt: RuntimeView<E>, signal: SignalRuntimeRef, value: E, k: int)
    requires
        rt.has_signal(signal),
        0 <= k < rt.signals[signal.id as int].on_present.len(),
    ensures
        rt.emit(signal, value).instant == rt.instant,
        rt.emit(signal, value).ready.len() == rt.ready.len()
            + rt.signals[signal.id as int].on_present.len(),
        rt.emit(signal, value).ready[rt.ready.len() + k] == (Task {
            callback: rt.signals[signal.id as int].on_present[k],
            value: Value::Unit,
        }),
        !rt.emit(signal, value).can_end(),
        rt.emit(signal, value).end_instant() == rt.emit(signal, value),
{
}

/// Who asks for the presence of a signal that is present already is resumed
/// at once.
pub proof fn presence_resumes_at_once<E>(
    rt: RuntimeView<E>,
    signal: SignalRuntimeRef,
    next: Continuation,
)
    requires
        rt.is_present(signal),
    ensures
        AnyProcess::AwaitImmediate(AwaitImmediateProcess { signal }).called(rt, next) == rt.deliver(
            next.label,
            None,
            Value::Unit,
        ),
{
}

/// Those who wait for the absence of a signal are never fired for an
/// instant in which the signal was emitted: at the close they are dropped,
/// and the close is the same as if they had never been registered.
pub proof fn presence_cancels_absence<E>(
    rt: RuntimeView<E>,
    signal: SignalRuntimeRef,
    value: E,
    close: RuntimeView<E>,
)
    requires
        rt.has_signal(signal),
        advances(rt.emit(signal, value), close),
    ensures
        close.is_present(signal),
        close.can_end() ==> close.end_instant() == close.with_signal(
            signal,
            SignalView { later_on_absent: Seq::empty(), ..close.signals[signal.id as int] },
        ).end_instant(),
        close.can_end() ==> close.end_instant().signals[signal.id as int].later_on_absent.len() == 0,
{
    presence_is_monotonic(rt, signal, value, close);
    let state = close.signals[signal.id as int];
    let other = close.with_signal(signal, SignalView { later_on_absent: Seq::empty(), ..state });
    if close.can_end() {
        scheduled_agrees(close.signals, other.signals, close.signals.len() as int);
        assert(close.end_instant().signals =~= other.end_instant().signals);
    }
}

/// Deferred absence. A callback that waits for the absence of a signal makes
/// nothing due in the instant of its registration. If the instant closes
/// without an emission of the signal, whatever else happened in it, the
/// callback is due at the start of the next instant.
pub proof fn absence_is_deferred<E>(
    rt: RuntimeView<E>,
    signal: SignalRuntimeRef,
    callback: Callback<E>,
    close: RuntimeView<E>,
)
    requires
        rt.has_signal(signal),
        advances(rt.register_absent(signal, callback), close),
        !close.is_present(signal),
        close.can_end(),
    ensures
        rt.register_absent(signal, callback).ready == rt.ready,
        rt.register_absent(signal, callback).deliveries == rt.deliveries,
        rt.register_absent(signal, callback).instant == rt.instant,
        close.end_instant().instant == rt.instant + 1,
        close.end_instant().ready.contains(Task { callback, value: Value::Unit }),
{
    let id = signal.id as int;
    let registered = rt.register_absent(signal, callback);
    let k = rt.signals[id].later_on_absent.len() as int;
    assert(registered.signals[id].later_on_absent[k] == callback);
    close_wakes(close, signal, k);
}

/// Await timing, same instant. Who waits with `await_immediate` for a signal
/// that is not present stays registered as long as the signal is not
/// emitted, over any number of instants, and is due in the very instant of
/// the emission.
pub proof fn await_immediate_resumes_in_the_instant_of_presence<E>(
    rt: RuntimeView<E>,
    signal: SignalRuntimeRef,
    next: Continuation,
    before: RuntimeView<E>,
    value: E,
)
    requires
        rt.has_signal(signal),
        !rt.is_present(signal),
        before.has_signal(signal),
        rt.signals[signal.id as int].on_present.push(Callback::<E>::Resume { next }).is_prefix_of(
            before.signals[signal.id as int].on_present,
        ),
    ensures
        AnyProcess::AwaitImmediate(AwaitImmediateProcess { signal }).called(
            rt,
            next,
        ).signals[signal.id as int].on_present == rt.signals[signal.id as int].on_present.push(
            Callback::<E>::Resume { next },
        ),
        before.emit(signal, value).instant == before.instant,
        before.emit(signal, value).ready.contains(
            Task { callback: Callback::<E>::Resume { next }, value: Value::Unit },
        ),
        forall|at: RuntimeView<E>, with: Value<E>|
            (#[trigger] Callback::<E>::Resume { next }.fired(at, with)) == at.deliver(
                next.label,
                None,
                with,
            ),
{
    let id = signal.id as int;
    let k = rt.signals[id].on_present.len() as int;
    let resume = Callback::<E>::Resume { next };
    assert(rt.signals[id].on_present.push(resume)[k] == resume);
    emission_wakes(before, signal, value, k);
}

/// Await timing, next instant. Who waits with `await` for a signal is due at
/// the start of the instant after the one in which the signal was present,
/// with the value that the signal had at the close.
pub proof fn await_resumes_in_the_next_instant<E>(
    rt: RuntimeView<E>,
    signal: SignalRuntimeRef,
    next: Continuation,
    close: RuntimeView<E>,
    value: E,
)
    requires
        rt.has_signal(signal),
        advances(AnyProcess::Await(AwaitProcess { signal }).called(rt, next), close),
        close.signals[signal.id as int].value == Some(value),
        close.can_end(),
    ensures
        AnyProcess::Await(AwaitProcess { signal }).called(rt, next).ready == rt.ready,
        AnyProcess::Await(AwaitProcess { signal }).called(rt, next).deliveries == rt.deliveries,
        close.end_instant().instant == rt.instant + 1,
        close.end_instant().ready.contains(
            Task { callback: Callback::<E>::Resume { next }, value: Value::Emitted(value) },
        ),
{
    let id = signal.id as int;
    let registered = AnyProcess::Await(AwaitProcess { signal }).called(rt, next);
    let k = rt.signals[id].later_on_present.len() as int;
    assert(registered.signals[id].later_on_present[k] == Callback::<E>::Resume { next });
    close_wakes(close, signal, k);
}

/// What a `present` leaves behind when its signal is not present: both
/// branches and the continuation in one new cell, a callback for the
/// presence and one for the absence, and nothing due or delivered.
pub proof fn present_parks_both_branches<E>(
    rt: RuntimeView<E>,
    process: PresentProcess<E>,
    next: Continuation,
)
    requires
        rt.fits(),
        rt.has_signal(process.signal),
        !rt.is_present(process.signal),
    ensures
        ({
            let after = AnyProcess::Present(process).called(rt, next);
            let cell = rt.cells.len() as usize;
            let id = process.signal.id as int;
            &&& cell == rt.cells.len()
            &&& after.parked(cell) == Some(
                Parked::Once {
                    process_if: *process.process_if,
                    process_else: *process.process_else,
                    next,
                },
            )
            &&& after.fired(cell) is None
            &&& after.signals[id].on_present == rt.signals[id].on_present.push(
                Callback::IfPresent { cell },
            )
            &&& after.signals[id].later_on_absent == rt.signals[id].later_on_absent.push(
                Callback::IfAbsent { cell },
            )
            &&& after.ready == rt.ready
            &&& after.deliveries == rt.deliveries
            &&& after.instant == rt.instant
        }),
{
}

/// The callback that fires `branch` of the `present` parked in `cell`.
pub open spec fn branch_of<E>(cell: usize, branch: Branch) -> Callback<E> {
    match branch {
        Branch::Present => Callback::IfPresent { cell },
        Branch::Absent => Callback::IfAbsent { cell },
    }
}

/// Present mutual exclusion. The branch of a `present` that fires first
/// takes what was parked and runs its side with the continuation that was
/// parked; the cell says from then on which branch it was. The other
/// branch, and the same branch fired again, find the cell taken and do
/// nothing, in that instant and in every later one.
pub proof fn present_runs_one_branch<E>(
    rt: RuntimeView<E>,
    cell: usize,
    first: Branch,
    value: Value<E>,
    later: RuntimeView<E>,
    again: Value<E>,
)
    requires
        rt.parked(cell) is Some,
        cells_settle(branch_of::<E>(cell, first).fired(rt, value).cells, later.cells),
    ensures
        rt.parked(cell) matches Some(Parked::Once { process_if, process_else, next }) ==> {
            &&& (Callback::<E>::IfPresent { cell }).fired(rt, value) == process_if.called(
                rt.take(cell, Branch::Present),
                next,
            )
            &&& (Callback::<E>::IfAbsent { cell }).fired(rt, value) == process_else.called(
                rt.take(cell, Branch::Absent),
                next,
            )
        },
        rt.fired(cell) is None,
        branch_of::<E>(cell, first).fired(rt, value).fired(cell) == Some(first),
        later.fired(cell) == Some(first),
        later.parked(cell) is None,
        (Callback::<E>::IfPresent { cell }).fired(later, again) == later,
        (Callback::<E>::IfAbsent { cell }).fired(later, again) == later,
{
    fired_extends(branch_of::<E>(cell, first), rt, value);
    let taken = rt.take(cell, first);
    match rt.parked(cell) {
        Some(Parked::Once { process_if, process_else, next }) => {
            match first {
                Branch::Present => called_extends(process_if, taken, next),
                Branch::Absent => called_extends(process_else, taken, next),
            }
        },
        Some(Parked::Repeat { signal, process_if, process_else, next }) => {
            match first {
                Branch::Present => called_mut_extends(
                    process_if,
                    taken,
                    ContinuationMut::RebuildIf { signal, process_else, next: Box::new(next) },
                ),
                Branch::Absent => called_mut_extends(
                    process_else,
                    taken,
                    ContinuationMut::RebuildElse { signal, process_if, next: Box::new(next) },
                ),
            }
        },
        None => {},
    }
}

/// A cell that was fired stays as it is.
pub proof fn fired_cells_stay<E>(pre: RuntimeView<E>, post: RuntimeView<E>, cell: usize)
    requires
        pre.fired(cell) is Some,
        cells_settle(pre.cells, post.cells),
    ensures
        post.fired(cell) == pre.fired(cell),
        post.parked(cell) is None,
{
}

/// Which branch runs, presence. If the signal is emitted, in the instant of
/// the `present` or in a later one, the presence branch is due in the
/// instant of the emission.
pub proof fn present_runs_if_branch_on_presence<E>(
    rt: RuntimeView<E>,
    process: PresentProcess<E>,
    next: Continuation,
    before: RuntimeView<E>,
    value: E,
)
    requires
        rt.fits(),
        rt.has_signal(process.signal),
        !rt.is_present(process.signal),
        before.has_signal(process.signal),
        AnyProcess::Present(process).called(
            rt,
            next,
        ).signals[process.signal.id as int].on_present.is_prefix_of(
            before.signals[process.signal.id as int].on_present,
        ),
    ensures
        before.emit(process.signal, value).instant == before.instant,
        before.emit(process.signal, value).ready.contains(
            Task {
                callback: Callback::IfPresent { cell: rt.cells.len() as usize },
                value: Value::Unit,
            },
        ),
{
    let id = process.signal.id as int;
    let k = rt.signals[id].on_present.len() as int;
    present_parks_both_branches(rt, process, next);
    let after = AnyProcess::Present(process).called(rt, next);
    let branch = Callback::<E>::IfPresent { cell: rt.cells.len() as usize };
    assert(after.signals[id].on_present[k] == branch);
    emission_wakes(before, process.signal, value, k);
}

/// Which branch runs, absence. If the instant of the `present` closes
/// without an emission of the signal, the absence branch is due at the
/// start of the next instant.
pub proof fn present_runs_else_branch_after_absence<E>(
    rt: RuntimeView<E>,
    process: PresentProcess<E>,
    next: Continuation,
    close: RuntimeView<E>,
)
    requires
        rt.fits(),
        rt.has_signal(process.signal),
        !rt.is_present(process.signal),
        advances(AnyProcess::Present(process).called(rt, next), close),
        !close.is_present(process.signal),
        close.can_end(),
    ensures
        close.end_instant().instant == rt.instant + 1,
        close.end_instant().ready.contains(
            Task {
                callback: Callback::IfAbsent { cell: rt.cells.len() as usize },
                value: Value::Unit,
            },
        ),
{
    let id = process.signal.id as int;
    let k = rt.signals[id].later_on_absent.len() as int;
    present_parks_both_branches(rt, process, next);
    let after = AnyProcess::Present(process).called(rt, next);
    let branch = Callback::<E>::IfAbsent { cell: rt.cells.len() as usize };
    assert(after.signals[id].later_on_absent[k] == branch);
    close_wakes(close, process.signal, k);
}

/// What `call_mut` on `process` hands to its continuation in the course of
/// the call: the state in which the continuation is resumed, the process to
/// run next time and the value. `None` where the process parks the
/// continuation.
pub open spec fn handed_back<E>(process: AnyProcess<E>, rt: RuntimeView<E>) -> Option<
    (RuntimeView<E>, AnyProcess<E>, Value<E>),
>
    decreases process,
{
    match process {
        AnyProcess::Emit(p) => Some((rt.emit(p.signal, p.value), process, Value::Unit)),
        AnyProcess::Await(p) => None,
        AnyProcess::AwaitImmediate(p) => if rt.is_present(p.signal) {
            Some((rt, process, Value::Unit))
        } else {
            None
        },
        AnyProcess::Present(p) => if rt.is_present(p.signal) {
            match handed_back(*p.process_if, rt) {
                Some((after, back, value)) => Some(
                    (after, present_of(p.signal, back, *p.process_else), value),
                ),
                None => None,
            }
        } else {
            None
        },
    }
}

/// Where `call_mut` hands something back in the course of the call, every
/// continuation is resumed with it, in the same state.
pub proof fn call_mut_hands_back<E>(
    process: AnyProcess<E>,
    rt: RuntimeView<E>,
    next: ContinuationMut<E>,
)
    ensures
        handed_back(process, rt) matches Some((after, back, value)) ==> process.called_mut(rt, next)
            == next.applied(after, back, value),
    decreases process,
{
    match process {
        AnyProcess::Present(p) => {
            if rt.is_present(p.signal) {
                call_mut_hands_back(
                    *p.process_if,
                    rt,
                    ContinuationMut::RebuildIf {
                        signal: p.signal,
                        process_else: *p.process_else,
                        next: Box::new(next),
                    },
                );
            }
        },
        _ => {},
    }
}

/// State-retention asymmetry. When a branch of a repeatable `present` has
/// run and hands back `back`, the `present` that goes to the continuation
/// holds `back` in the place of that branch and the other branch exactly as
/// it was given. This holds where the branch runs in the course of
/// `call_mut`, the signal being present, and where it is fired later from
/// the cell.
pub proof fn present_retains_the_branch_that_did_not_run<E>(
    rt: RuntimeView<E>,
    signal: SignalRuntimeRef,
    process_if: AnyProcess<E>,
    process_else: AnyProcess<E>,
    next: ContinuationMut<E>,
    back: AnyProcess<E>,
    value: Value<E>,
    cell: usize,
)
    ensures
        (ContinuationMut::RebuildIf { signal, process_else, next: Box::new(next) }).applied(
            rt,
            back,
            value,
        ) == next.applied(rt, present_of(signal, back, process_else), value),
        (ContinuationMut::RebuildElse { signal, process_if, next: Box::new(next) }).applied(
            rt,
            back,
            value,
        ) == next.applied(rt, present_of(signal, process_if, back), value),
        rt.is_present(signal) ==> present_of(signal, process_if, process_else).called_mut(rt, next)
            == process_if.called_mut(
            rt,
            ContinuationMut::RebuildIf { signal, process_else, next: Box::new(next) },
        ),
        rt.parked(cell) == Some(Parked::Repeat { signal, process_if, process_else, next }) ==> {
            &&& (Callback::<E>::IfPresent { cell }).fired(rt, value) == process_if.called_mut(
                rt.take(cell, Branch::Present),
                ContinuationMut::RebuildIf { signal, process_else, next: Box::new(next) },
            )
            &&& (Callback::<E>::IfAbsent { cell }).fired(rt, value) == process_else.called_mut(
                rt.take(cell, Branch::Absent),
                ContinuationMut::RebuildElse { signal, process_if, next: Box::new(next) },
            )
            &&& handed_back(process_if, rt.take(cell, Branch::Present)) matches Some(
                (after, again, result),
            ) ==> (Callback::<E>::IfPresent { cell }).fired(rt, value) == next.applied(
                after,
                present_of(signal, again, process_else),
                result,
            )
            &&& handed_back(process_else, rt.take(cell, Branch::Absent)) matches Some(
                (after, again, result),
            ) ==> (Callback::<E>::IfAbsent { cell }).fired(rt, value) == next.applied(
                after,
                present_of(signal, process_if, again),
                result,
            )
        },
{
    if rt.parked(cell) == Some(Parked::Repeat { signal, process_if, process_else, next }) {
        call_mut_hands_back(
            process_if,
            rt.take(cell, Branch::Present),
            ContinuationMut::RebuildIf { signal, process_else, next: Box::new(next) },
        );
        call_mut_hands_back(
            process_else,
            rt.take(cell, Branch::Absent),
            ContinuationMut::RebuildElse { signal, process_if, next: Box::new(next) },
        );
    }
}

/// The runtime after `emit` was run `n` times by `call_mut`, each time with
/// a continuation that delivers under `label`.
pub open spec fn replayed<E>(
    rt: RuntimeView<E>,
    emit: EmitProcess<E>,
    label: u64,
    n: nat,
) -> RuntimeView<E>
    decreases n,
{
    if n == 0 {
        rt
    } else {
        AnyProcess::Emit(emit).called_mut(
            replayed(rt, emit, label, (n - 1) as nat),
            ContinuationMut::Report { label },
        )
    }
}

/// What `n` runs of `emit` deliver under `label` in instant `instant`.
pub open spec fn replays<E>(emit: EmitProcess<E>, label: u64, instant: u64, n: nat) -> Seq<
    Delivery<E>,
> {
    Seq::new(
        n,
        |i: int|
            Delivery { label, instant, process: Some(AnyProcess::Emit(emit)), value: Value::Unit },
    )
}

/// Emit idempotent replay. `call_mut` on an emission emits the value and
/// resumes the continuation at once with the very same emission. Run `n`
/// times it emits `n` times and hands the same process back `n` times, in
/// one instant.
pub proof fn emit_replays<E>(
    rt: RuntimeView<E>,
    emit: EmitProcess<E>,
    next: ContinuationMut<E>,
    label: u64,
    n: nat,
)
    ensures
        AnyProcess::Emit(emit).called_mut(rt, next) == next.applied(
            rt.emit(emit.signal, emit.value),
            AnyProcess::Emit(emit),
            Value::Unit,
        ),
        handed_back(AnyProcess::Emit(emit), rt) == Some(
            (rt.emit(emit.signal, emit.value), AnyProcess::Emit(emit), Value::<E>::Unit),
        ),
        replayed(rt, emit, label, n).instant == rt.instant,
        replayed(rt, emit, label, n).signals.len() == rt.signals.len(),
        replayed(rt, emit, label, n).deliveries == rt.deliveries + replays(
            emit,
            label,
            rt.instant,
            n,
        ),
        n > 0 && rt.has_signal(emit.signal) ==> replayed(
            rt,
            emit,
            label,
            n,
        ).signals[emit.signal.id as int].value == Some(emit.value),
    decreases n,
{
    if n > 0 {
        emit_replays(rt, emit, next, label, (n - 1) as nat);
    }
    assert(replayed(rt, emit, label, n).deliveries =~= rt.deliveries + replays(
        emit,
        label,
        rt.instant,
        n,
    ));
}

/// Every process of the algebra is handed back as it was given: none
/// carries state of its own from one run to the next.
pub proof fn call_mut_hands_back_the_process<E>(process: AnyProcess<E>, rt: RuntimeView<E>)
    ensures
        handed_back(process, rt) matches Some((after, back, value)) ==> back == process,
    decreases process,
{
    match process {
        AnyProcess::Present(p) => {
            if rt.is_present(p.signal) {
                call_mut_hands_back_the_process(*p.process_if, rt);
            }
        },
        _ => {},
    }
}

/// One more callback fired is one more step.
pub proof fn run_steps<E>(rt: RuntimeView<E>, n: nat)
    ensures
        rt.run(n + 1) == rt.run(n).step(),
    decreases n,
{
    if rt.ready.len() > 0 {
        if n > 0 {
            run_steps(rt.step(), (n - 1) as nat);
        } else {
            assert(rt.step().run(0) == rt.step());
        }
    }
}

/// What is due is fired in its turn, in the instant in which it is due: the
/// callback at place `k` of the queue is the first in it after `k` callbacks
/// were fired, whatever those did.
pub proof fn due_callbacks_fire_in_turn<E>(rt: RuntimeView<E>, k: nat)
    requires
        k < rt.ready.len(),
    ensures
        rt.run(k).instant == rt.instant,
        rt.run(k).ready.len() > 0,
        rt.run(k).ready[0] == rt.ready[k as int],
        rt.run(k + 1) == rt.run(k).step(),
    decreases k,
{
    run_steps(rt, k);
    if k > 0 {
        let task = rt.ready[0];
        let rest = RuntimeView { ready: rt.ready.drop_first(), ..rt };
        fired_extends(task.callback, rest, task.value);
        assert(rt.step().ready[k - 1] == rest.ready[k - 1]);
        due_callbacks_fire_in_turn(rt.step(), (k - 1) as nat);
    }
}

/// What is due in an instant is fired in that instant: running the instant
/// to its end fires the callback at place `k` of the queue as its step
/// number `k + 1`, and the instant does not close before.
pub proof fn settle_fires_what_is_due<E>(rt: RuntimeView<E>, k: nat)
    requires
        k < rt.ready.len(),
    ensures
        rt.run(k).ready.len() > 0,
        rt.run(k).ready[0] == rt.ready[k as int],
        !rt.run(k).can_end(),
        rt.settle() == rt.run(k).step().settle(),
        rt.settle().ready.len() == 0,
        rt.settle().instant == rt.instant,
    decreases k,
{
    due_callbacks_fire_in_turn(rt, k);
    every_instant_ends(rt);
    if k > 0 {
        let task = rt.ready[0];
        let rest = RuntimeView { ready: rt.ready.drop_first(), ..rt };
        fired_extends(task.callback, rest, task.value);
        settle_fires_what_is_due(rt.step(), (k - 1) as nat);
    }
}

} // verus!
