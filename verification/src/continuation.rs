use crate::process::{
    AnyProcess, AwaitImmediateProcess, AwaitProcess, PresentProcess, Process, ProcessMut,
};
use crate::runtime::Runtime;
use crate::signal::SignalRuntimeRef;
use vstd::prelude::*;

verus! {

/// What a process hands to its continuation.
#[derive(Debug, PartialEq, Eq)]
pub enum Value<E> {
    /// Nothing but the fact that the process is done.
    Unit,
    /// The value of the signal that was awaited.
    Emitted(E),
}

/// The rest of a computation that was started with `call`.
///
/// It is used once: resuming it delivers the value under `label` to whoever
/// drives the runtime.
#[derive(Debug, PartialEq, Eq)]
pub struct Continuation {
    pub label: u64,
}

/// The rest of a computation that was started with `call_mut`: it takes the
/// process to run next time together with the value.
#[derive(Debug, PartialEq, Eq)]
pub enum ContinuationMut<E> {
    /// Deliver process and value under `label`.
    Report { label: u64 },
    /// The presence branch of a `present` on `signal` has run: put what it
    /// hands back in its place, beside the untouched `process_else`.
    RebuildIf { signal: SignalRuntimeRef, process_else: AnyProcess<E>, next: Box<ContinuationMut<E>> },
    /// The absence branch of a `present` on `signal` has run: put what it
    /// hands back in its place, beside the untouched `process_if`.
    RebuildElse { signal: SignalRuntimeRef, process_if: AnyProcess<E>, next: Box<ContinuationMut<E>> },
}

/// What the two branches of one `present` share until one of them takes it.
#[allow(inconsistent_fields)]
#[derive(Debug, PartialEq, Eq)]
pub enum Parked<E> {
    /// Left by `call`.
    Once { process_if: AnyProcess<E>, process_else: AnyProcess<E>, next: Continuation },
    /// Left by `call_mut`.
    Repeat {
        signal: SignalRuntimeRef,
        process_if: AnyProcess<E>,
        process_else: AnyProcess<E>,
        next: ContinuationMut<E>,
    },
}

/// One of the two branches of a `present`.
#[derive(Clone, Copy, Debug, PartialEq, Eq)]
pub enum Branch {
    /// The branch that runs in the instant of the presence.
    Present,
    /// The branch that runs in the instant after the absence.
    Absent,
}

/// Where the `present` of a cell stands: its branches wait, or one of them
/// has taken what was parked and has run. A cell that was fired stays as it is.
#[derive(Debug, PartialEq, Eq)]
pub enum Cell<E> {
    Pending { parked: Parked<E> },
    FiredPresent,
    FiredAbsent,
}

/// A callback registered with a signal.
#[allow(inconsistent_fields)]
#[derive(Debug, PartialEq, Eq)]
pub enum Callback<E> {
    /// Resume a continuation with the value of the event.
    Resume { next: Continuation },
    /// Hand back a fresh `await` on `signal` with the value of the event.
    Reawait { signal: SignalRuntimeRef, next: ContinuationMut<E> },
    /// Hand back a fresh `await_immediate` on `signal`.
    ReawaitImmediate { signal: SignalRuntimeRef, next: ContinuationMut<E> },
    /// Presence branch of the `present` parked in `cell`.
    IfPresent { cell: usize },
    /// Absence branch of the `present` parked in `cell`.
    IfAbsent { cell: usize },
}

/// A callback that is due, with the value it is to be fired with.
#[derive(Debug, PartialEq, Eq)]
pub struct Task<E> {
    pub callback: Callback<E>,
    pub value: Value<E>,
}

/// What a finished computation left for the driver of the runtime.
#[derive(Debug, PartialEq, Eq)]
pub struct Delivery<E> {
    /// Label of the continuation that was resumed.
    pub label: u64,
    /// Instant in which it was resumed.
    pub instant: u64,
    /// The process to run next time, where the computation was repeatable.
    pub process: Option<AnyProcess<E>>,
    pub value: Value<E>,
}

impl<E: Copy> Copy for Value<E> {}

impl<E: Copy> Clone for Value<E> {
    fn clone(&self) -> (copy: Self)
        ensures
            copy == *self,
    {
        *self
    }
}

impl Continuation {
    /// Resumes the computation with `value`: delivers it under the label.
    pub fn call<E: Copy>(self, runtime: &mut Runtime<E>, value: Value<E>)
        ensures
            final(runtime)@ == self.applied(old(runtime)@, value),
    {
        runtime.deliver(self.label, None, value);
    }
}

impl<E: Copy> ContinuationMut<E> {
    /// Resumes the computation with `process`, the process to run next time,
    /// and `value`.
    pub fn call(self, runtime: &mut Runtime<E>, process: AnyProcess<E>, value: Value<E>)
        ensures
            final(runtime)@ == self.applied(old(runtime)@, process, value),
        decreases self,
    {
        match self {
            ContinuationMut::Report { label } => {
                runtime.deliver(label, Some(process), value);
            },
            ContinuationMut::RebuildIf { signal, process_else, next } => {
                let present = PresentProcess {
                    signal,
                    process_if: Box::new(process),
                    process_else: Box::new(process_else),
                };
                (*next).call(runtime, AnyProcess::Present(present), value);
            },
            ContinuationMut::RebuildElse { signal, process_if, next } => {
                let present = PresentProcess {
                    signal,
                    process_if: Box::new(process_if),
                    process_else: Box::new(process),
                };
                (*next).call(runtime, AnyProcess::Present(present), value);
            },
        }
    }
}

impl<E: Copy> Callback<E> {
    /// Fires the callback with `value`.
    ///
    /// A branch of a `present` takes what was parked in its cell and runs
    /// its side of it with the continuation that was parked; where a branch
    /// has taken the cell before, it does nothing. A branch of a repeatable
    /// `present` runs its side by `call_mut`, with a continuation that puts
    /// what the side hands back in its place and leaves the other side as
    /// it was given.
    pub fn fire(self, runtime: &mut Runtime<E>, value: Value<E>)
        ensures
            final(runtime)@ == self.fired(old(runtime)@, value),
    {
        match self {
            Callback::Resume { next } => {
                next.call(runtime, value);
            },
            Callback::Reawait { signal, next } => {
                next.call(runtime, AnyProcess::Await(AwaitProcess { signal }), value);
            },
            Callback::ReawaitImmediate { signal, next } => {
                next.call(
                    runtime,
                    AnyProcess::AwaitImmediate(AwaitImmediateProcess { signal }),
                    Value::Unit,
                );
            },
            Callback::IfPresent { cell } => {
                match runtime.take(cell, Branch::Present) {
                    Some(Parked::Once { process_if, next, .. }) => {
                        process_if.call(runtime, next);
                    },
                    Some(Parked::Repeat { signal, process_if, process_else, next }) => {
                        process_if.call_mut(
                            runtime,
                            ContinuationMut::RebuildIf { signal, process_else, next: Box::new(next) },
                        );
                    },
                    None => {},
                }
            },
            Callback::IfAbsent { cell } => {
                match runtime.take(cell, Branch::Absent) {
                    Some(Parked::Once { process_else, next, .. }) => {
                        process_else.call(runtime, next);
                    },
                    Some(Parked::Repeat { signal, process_if, process_else, next }) => {
                        process_else.call_mut(
                            runtime,
                            ContinuationMut::RebuildElse { signal, process_if, next: Box::new(next) },
                        );
                    },
                    None => {},
                }
            },
        }
    }
}

} // verus!
