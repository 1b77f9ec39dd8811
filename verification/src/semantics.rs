use crate::continuation::{Branch, Callback, Continuation, ContinuationMut, Parked, Value};
use crate::model::RuntimeView;
use crate::process::{AnyProcess, AwaitImmediateProcess, AwaitProcess, PresentProcess};
use crate::signal::SignalRuntimeRef;
use vstd::prelude::*;

verus! {

/// The process `present(process_if, process_else)` on `signal`.
pub open spec fn present_of<E>(
    signal: SignalRuntimeRef,
    process_if: AnyProcess<E>,
    process_else: AnyProcess<E>,
) -> AnyProcess<E> {
    AnyProcess::Present(
        PresentProcess {
            signal,
            process_if: Box::new(process_if),
            process_else: Box::new(process_else),
        },
    )
}

impl Continuation {
    /// The runtime after this continuation was resumed with `value`.
    pub open spec fn applied<E>(self, rt: RuntimeView<E>, value: Value<E>) -> RuntimeView<E> {
        rt.deliver(self.label, None, value)
    }
}

impl<E> ContinuationMut<E> {
    /// The runtime after this continuation was resumed with `process`, the
    /// process to run next time, and `value`.
    ///
    /// A branch of a `present` that has run goes back into the `present` as
    /// what it handed back; the other branch goes back as it was given.
    pub open spec fn applied(
        self,
        rt: RuntimeView<E>,
        process: AnyProcess<E>,
        value: Value<E>,
    ) -> RuntimeView<E>
        decreases self,
    {
        match self {
            ContinuationMut::Report { label } => rt.deliver(label, Some(process), value),
            ContinuationMut::RebuildIf { signal, process_else, next } => next.applied(
                rt,
                present_of(signal, process, process_else),
                value,
            ),
            ContinuationMut::RebuildElse { signal, process_if, next } => next.applied(
                rt,
                present_of(signal, process_if, process),
                value,
            ),
        }
    }
}

impl<E> AnyProcess<E> {
    /// The runtime after `call`.
    pub open spec fn called(self, rt: RuntimeView<E>, next: Continuation) -> RuntimeView<E>
        decreases self,
    {
        match self {
            AnyProcess::Emit(p) => next.applied(rt.emit(p.signal, p.value), Value::Unit),
            AnyProcess::Await(p) => rt.register_later_present(p.signal, Callback::Resume { next }),
            AnyProcess::AwaitImmediate(p) => if rt.is_present(p.signal) {
                next.applied(rt, Value::Unit)
            } else {
                rt.register_present(p.signal, Callback::Resume { next })
            },
            AnyProcess::Present(p) => if rt.is_present(p.signal) {
                p.process_if.called(rt, next)
            } else {
                let cell = rt.cells.len() as usize;
                rt.park(
                    Parked::Once { process_if: *p.process_if, process_else: *p.process_else, next },
                ).register_present(p.signal, Callback::IfPresent { cell }).register_absent(
                    p.signal,
                    Callback::IfAbsent { cell },
                )
            },
        }
    }

    /// The runtime after `call_mut`.
    pub open spec fn called_mut(self, rt: RuntimeView<E>, next: ContinuationMut<E>) -> RuntimeView<E>
        decreases self,
    {
        match self {
            AnyProcess::Emit(p) => next.applied(
                rt.emit(p.signal, p.value),
                AnyProcess::Emit(p),
                Value::Unit,
            ),
            AnyProcess::Await(p) => rt.register_later_present(
                p.signal,
                Callback::Reawait { signal: p.signal, next },
            ),
            AnyProcess::AwaitImmediate(p) => if rt.is_present(p.signal) {
                next.applied(rt, AnyProcess::AwaitImmediate(p), Value::Unit)
            } else {
                rt.register_present(p.signal, Callback::ReawaitImmediate { signal: p.signal, next })
            },
            AnyProcess::Present(p) => if rt.is_present(p.signal) {
                p.process_if.called_mut(
                    rt,
                    ContinuationMut::RebuildIf {
                        signal: p.signal,
                        process_else: *p.process_else,
                        next: Box::new(next),
                    },
                )
            } else {
                let cell = rt.cells.len() as usize;
                rt.park(
                    Parked::Repeat {
                        signal: p.signal,
                        process_if: *p.process_if,
                        process_else: *p.process_else,
                        next,
                    },
                ).register_present(p.signal, Callback::IfPresent { cell }).register_absent(
                    p.signal,
                    Callback::IfAbsent { cell },
                )
            },
        }
    }
}

impl<E> Callback<E> {
    /// The runtime after this callback was fired with `value`.
    ///
    /// A branch of a `present` takes what the `present` parked and runs its
    /// side of it; where a branch has taken it already, nothing happens.
    pub open spec fn fired(self, rt: RuntimeView<E>, value: Value<E>) -> RuntimeView<E> {
        match self {
            Callback::Resume { next } => next.applied(rt, value),
            Callback::Reawait { signal, next } => next.applied(
                rt,
                AnyProcess::Await(AwaitProcess { signal }),
                value,
            ),
            Callback::ReawaitImmediate { signal, next } => next.applied(
                rt,
                AnyProcess::AwaitImmediate(AwaitImmediateProcess { signal }),
                Value::Unit,
            ),
            Callback::IfPresent { cell } => match rt.parked(cell) {
                Some(Parked::Once { process_if, process_else, next }) => process_if.called(
                    rt.take(cell, Branch::Present),
                    next,
                ),
                Some(Parked::Repeat { signal, process_if, process_else, next }) => {
                    process_if.called_mut(
                        rt.take(cell, Branch::Present),
                        ContinuationMut::RebuildIf { signal, process_else, next: Box::new(next) },
                    )
                },
                None => rt,
            },
            Callback::IfAbsent { cell } => match rt.parked(cell) {
                Some(Parked::Once { process_if, process_else, next }) => process_else.called(
                    rt.take(cell, Branch::Absent),
                    next,
                ),
                Some(Parked::Repeat { signal, process_if, process_else, next }) => {
                    process_else.called_mut(
                        rt.take(cell, Branch::Absent),
                        ContinuationMut::RebuildElse { signal, process_if, next: Box::new(next) },
                    )
                },
                None => rt,
            },
        }
    }
}

impl<E> RuntimeView<E> {
    /// The runtime after the first callback that is due was fired; the
    /// runtime itself where none is due.
    pub open spec fn step(self) -> Self {
        if self.ready.len() > 0 {
            let task = self.ready[0];
            task.callback.fired(RuntimeView { ready: self.ready.drop_first(), ..self }, task.value)
        } else {
            self
        }
    }

    /// The runtime after up to `fuel` callbacks were fired.
    pub open spec fn run(self, fuel: nat) -> Self
        decreases fuel,
    {
        if fuel == 0 || self.ready.len() == 0 {
            self
        } else {
            self.step().run((fuel - 1) as nat)
        }
    }
}

} // verus!
