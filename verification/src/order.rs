//! The order of the states of a runtime within one instant.

use crate::continuation::{Branch, Callback, Cell, Continuation, ContinuationMut, Parked, Value};
use crate::model::{RuntimeView, SignalView};
use crate::process::{AnyProcess, AwaitImmediateProcess, AwaitProcess};
use crate::signal::SignalRuntimeRef;
use crate::semantics::present_of;
use vstd::prelude::*;

verus! {

/// Within an instant a signal never loses its presence, those who wait for
/// the close of the instant stay registered in their order, and so do those
/// who wait for the presence, as long as the signal is not present.
pub open spec fn signal_advances<E>(pre: SignalView<E>, post: SignalView<E>) -> bool {
    &&& pre.value is Some ==> post.value is Some
    &&& post.value is None ==> pre.on_present.is_prefix_of(post.on_present)
    &&& pre.later_on_present.is_prefix_of(post.later_on_present)
    &&& pre.later_on_absent.is_prefix_of(post.later_on_absent)
}

/// A cell changes once at most: from pending to fired by one of its branches.
pub open spec fn cells_settle<E>(pre: Seq<Cell<E>>, post: Seq<Cell<E>>) -> bool {
    &&& pre.len() <= post.len()
    &&& forall|c: int|
        0 <= c < pre.len() && !(pre[c] is Pending && (#[trigger] post[c]) !is Pending) ==> post[c]
            == pre[c]
}

/// `post` may follow `pre` within one instant: the instant is the same, no
/// signal is lost or goes back, no cell is filled again, and what was
/// delivered stays delivered.
pub open spec fn advances<E>(pre: RuntimeView<E>, post: RuntimeView<E>) -> bool {
    &&& post.instant == pre.instant
    &&& pre.signals.len() <= post.signals.len()
    &&& forall|i: int|
        0 <= i < pre.signals.len() ==> signal_advances(pre.signals[i], #[trigger] post.signals[i])
    &&& cells_settle(pre.cells, post.cells)
    &&& pre.deliveries.is_prefix_of(post.deliveries)
}

/// `post` may follow `pre` within one instant, and nothing that was due in
/// `pre` was fired or dropped on the way: what became due stands behind it.
pub open spec fn extends<E>(pre: RuntimeView<E>, post: RuntimeView<E>) -> bool {
    &&& advances(pre, post)
    &&& pre.ready.is_prefix_of(post.ready)
}

/// Every state may follow itself.
pub proof fn advances_reflexive<E>(rt: RuntimeView<E>)
    ensures
        advances(rt, rt),
{
}

/// What may follow a state that may follow `a` may follow `a`.
pub proof fn advances_transitive<E>(a: RuntimeView<E>, b: RuntimeView<E>, c: RuntimeView<E>)
    requires
        advances(a, b),
        advances(b, c),
    ensures
        advances(a, c),
{
}

/// Every state extends itself, and extending is transitive.
pub proof fn extends_transitive<E>(a: RuntimeView<E>, b: RuntimeView<E>, c: RuntimeView<E>)
    requires
        extends(a, b),
        extends(b, c),
    ensures
        extends(a, a),
        extends(a, c),
{
    advances_transitive(a, b, c);
}

/// An emission, a registration, a cell parked or taken, a delivery and a
/// new signal each fire nothing and drop nothing.
pub proof fn primitives_extend<E>(
    rt: RuntimeView<E>,
    signal: SignalRuntimeRef,
    value: E,
    callback: Callback<E>,
    parked: Parked<E>,
    cell: usize,
    branch: Branch,
    label: u64,
    process: Option<AnyProcess<E>>,
    result: Value<E>,
)
    ensures
        extends(rt, rt.emit(signal, value)),
        extends(rt, rt.register_present(signal, callback)),
        extends(rt, rt.register_later_present(signal, callback)),
        extends(rt, rt.register_absent(signal, callback)),
        extends(rt, rt.park(parked)),
        extends(rt, rt.take(cell, branch)),
        extends(rt, rt.deliver(label, process, result)),
        extends(rt, rt.new_signal()),
{
}

/// Resuming a continuation fires nothing and drops nothing.
pub proof fn applied_extends<E>(
    next: ContinuationMut<E>,
    rt: RuntimeView<E>,
    process: AnyProcess<E>,
    value: Value<E>,
)
    ensures
        extends(rt, next.applied(rt, process, value)),
    decreases next,
{
    match next {
        ContinuationMut::Report { label } => {},
        ContinuationMut::RebuildIf { signal, process_else, next } => {
            applied_extends(*next, rt, present_of(signal, process, process_else), value);
        },
        ContinuationMut::RebuildElse { signal, process_if, next } => {
            applied_extends(*next, rt, present_of(signal, process_if, process), value);
        },
    }
}

/// `call` fires nothing and drops nothing.
pub proof fn called_extends<E>(process: AnyProcess<E>, rt: RuntimeView<E>, next: Continuation)
    ensures
        extends(rt, process.called(rt, next)),
    decreases process,
{
    match process {
        AnyProcess::Emit(p) => {
            extends_transitive(rt, rt.emit(p.signal, p.value), process.called(rt, next));
        },
        AnyProcess::Await(p) => {},
        AnyProcess::AwaitImmediate(p) => {},
        AnyProcess::Present(p) => {
            if rt.is_present(p.signal) {
                called_extends(*p.process_if, rt, next);
            } else {
                let cell = rt.cells.len() as usize;
                let parked = Parked::Once {
                    process_if: *p.process_if,
                    process_else: *p.process_else,
                    next,
                };
                let a = rt.park(parked);
                let b = a.register_present(p.signal, Callback::IfPresent { cell });
                let c = b.register_absent(p.signal, Callback::IfAbsent { cell });
                extends_transitive(rt, a, b);
                extends_transitive(rt, b, c);
            }
        },
    }
}

/// `call_mut` fires nothing and drops nothing.
pub proof fn called_mut_extends<E>(
    process: AnyProcess<E>,
    rt: RuntimeView<E>,
    next: ContinuationMut<E>,
)
    ensures
        extends(rt, process.called_mut(rt, next)),
    decreases process,
{
    match process {
        AnyProcess::Emit(p) => {
            let a = rt.emit(p.signal, p.value);
            applied_extends(next, a, process, Value::Unit);
            extends_transitive(rt, a, process.called_mut(rt, next));
        },
        AnyProcess::Await(p) => {},
        AnyProcess::AwaitImmediate(p) => {
            if rt.is_present(p.signal) {
                applied_extends(next, rt, process, Value::Unit);
            }
        },
        AnyProcess::Present(p) => {
            if rt.is_present(p.signal) {
                called_mut_extends(
                    *p.process_if,
                    rt,
                    ContinuationMut::RebuildIf {
                        signal: p.signal,
                        process_else: *p.process_else,
                        next: Box::new(next),
                    },
                );
            } else {
                let cell = rt.cells.len() as usize;
                let parked = Parked::Repeat {
                    signal: p.signal,
                    process_if: *p.process_if,
                    process_else: *p.process_else,
                    next,
                };
                let a = rt.park(parked);
                let b = a.register_present(p.signal, Callback::IfPresent { cell });
                let c = b.register_absent(p.signal, Callback::IfAbsent { cell });
                extends_transitive(rt, a, b);
                extends_transitive(rt, b, c);
            }
        },
    }
}

/// Firing a callback fires nothing else and drops nothing.
pub proof fn fired_extends<E>(callback: Callback<E>, rt: RuntimeView<E>, value: Value<E>)
    ensures
        extends(rt, callback.fired(rt, value)),
{
    match callback {
        Callback::Resume { next } => {},
        Callback::Reawait { signal, next } => {
            applied_extends(
                next,
                rt,
                AnyProcess::Await(AwaitProcess { signal }),
                value,
            );
        },
        Callback::ReawaitImmediate { signal, next } => {
            applied_extends(
                next,
                rt,
                AnyProcess::AwaitImmediate(AwaitImmediateProcess { signal }),
                Value::Unit,
            );
        },
        Callback::IfPresent { cell } => {
            match rt.parked(cell) {
                Some(Parked::Once { process_if, process_else, next }) => {
                    called_extends(process_if, rt.take(cell, Branch::Present), next);
                    extends_transitive(rt, rt.take(cell, Branch::Present), callback.fired(rt, value));
                },
                Some(Parked::Repeat { signal, process_if, process_else, next }) => {
                    called_mut_extends(
                        process_if,
                        rt.take(cell, Branch::Present),
                        ContinuationMut::RebuildIf { signal, process_else, next: Box::new(next) },
                    );
                    extends_transitive(rt, rt.take(cell, Branch::Present), callback.fired(rt, value));
                },
                None => {},
            }
        },
        Callback::IfAbsent { cell } => {
            match rt.parked(cell) {
                Some(Parked::Once { process_if, process_else, next }) => {
                    called_extends(process_else, rt.take(cell, Branch::Absent), next);
                    extends_transitive(rt, rt.take(cell, Branch::Absent), callback.fired(rt, value));
                },
                Some(Parked::Repeat { signal, process_if, process_else, next }) => {
                    called_mut_extends(
                        process_else,
                        rt.take(cell, Branch::Absent),
                        ContinuationMut::RebuildElse { signal, process_if, next: Box::new(next) },
                    );
                    extends_transitive(rt, rt.take(cell, Branch::Absent), callback.fired(rt, value));
                },
                None => {},
            }
        },
    }
}

/// Firing what is due leads to a state that may follow within the instant,
/// however many callbacks are fired.
pub proof fn run_advances<E>(rt: RuntimeView<E>, fuel: nat)
    ensures
        advances(rt, rt.step()),
        advances(rt, rt.run(fuel)),
    decreases fuel,
{
    if rt.ready.len() > 0 {
        let task = rt.ready[0];
        let rest = RuntimeView { ready: rt.ready.drop_first(), ..rt };
        fired_extends(task.callback, rest, task.value);
        advances_transitive(rt, rest, rt.step());
        if fuel > 0 {
            run_advances(rt.step(), (fuel - 1) as nat);
            advances_transitive(rt, rt.step(), rt.run(fuel));
        }
    }
}

} // verus!
