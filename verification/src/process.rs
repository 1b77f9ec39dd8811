use crate::continuation::{Callback, Continuation, ContinuationMut, Parked, Value};
use crate::runtime::Runtime;
use crate::signal::SignalRuntimeRef;
use vstd::prelude::*;

verus! {

/// Process that marks a signal present with `value` and resumes at once.
#[derive(Debug, PartialEq, Eq)]
pub struct EmitProcess<E> {
    pub signal: SignalRuntimeRef,
    pub value: E,
}

/// Process that waits for a signal and resumes in the instant after the one
/// in which the signal was present, with the signal's value.
#[derive(Clone, Copy, Debug, PartialEq, Eq)]
pub struct AwaitProcess {
    pub signal: SignalRuntimeRef,
}

/// Process that waits for a signal and resumes in the very instant in which
/// the signal is present.
#[derive(Clone, Copy, Debug, PartialEq, Eq)]
pub struct AwaitImmediateProcess {
    pub signal: SignalRuntimeRef,
}

/// Process that branches on a signal: `process_if` runs in the current instant
/// if the signal is present, `process_else` in the next one if it is not.
#[derive(Debug, PartialEq, Eq)]
pub struct PresentProcess<E> {
    pub signal: SignalRuntimeRef,
    pub process_if: Box<AnyProcess<E>>,
    pub process_else: Box<AnyProcess<E>>,
}

/// A process of any of the four shapes.
#[derive(Debug, PartialEq, Eq)]
pub enum AnyProcess<E> {
    Emit(EmitProcess<E>),
    Await(AwaitProcess),
    AwaitImmediate(AwaitImmediateProcess),
    Present(PresentProcess<E>),
}

/// A process that runs once: `call` takes the process and the continuation,
/// and either resumes the continuation in the course of the call or leaves
/// a callback with a signal and returns.
pub trait Process<E: Copy>: Sized {
    /// The process as a term of the algebra.
    spec fn term(self) -> AnyProcess<E>;

    /// The process, its shape forgotten.
    fn into_any(self) -> (process: AnyProcess<E>)
        ensures
            process == self.term(),
    ;

    /// Runs the process with `next` as the rest of the computation.
    fn call(self, runtime: &mut Runtime<E>, next: Continuation)
        ensures
            final(runtime)@ == self.term().called(old(runtime)@, next),
    ;
}

/// A process that can be run again: `call_mut` hands the continuation, beside
/// the value, the process to run next time. What has run comes back as it
/// goes on; what has not run comes back as it was given.
pub trait ProcessMut<E: Copy>: Process<E> {
    /// Runs the process with `next` as the rest of the computation.
    fn call_mut(self, runtime: &mut Runtime<E>, next: ContinuationMut<E>)
        ensures
            final(runtime)@ == self.term().called_mut(old(runtime)@, next),
    ;
}

impl<E: Copy> Process<E> for EmitProcess<E> {
    open spec fn term(self) -> AnyProcess<E> {
        AnyProcess::Emit(self)
    }

    fn into_any(self) -> (process: AnyProcess<E>) {
        AnyProcess::Emit(self)
    }

    /// Emits the value, then resumes `next` at once.
    fn call(self, runtime: &mut Runtime<E>, next: Continuation) {
        self.signal.emit(runtime, self.value);
        next.call(runtime, Value::Unit);
    }
}

impl<E: Copy> ProcessMut<E> for EmitProcess<E> {
    /// Emits the value, then resumes `next` at once with the same emission
    /// to run next time.
    fn call_mut(self, runtime: &mut Runtime<E>, next: ContinuationMut<E>) {
        let again = EmitProcess { signal: self.signal, value: self.value };
        self.signal.emit(runtime, self.value);
        next.call(runtime, AnyProcess::Emit(again), Value::Unit);
    }
}

impl<E: Copy> Process<E> for AwaitProcess {
    open spec fn term(self) -> AnyProcess<E> {
        AnyProcess::Await(self)
    }

    fn into_any(self) -> (process: AnyProcess<E>) {
        AnyProcess::Await(self)
    }

    /// Leaves `next` with the signal, to be resumed with the signal's value
    /// in the instant after one in which the signal was present.
    fn call(self, runtime: &mut Runtime<E>, next: Continuation) {
        self.signal.later_on_present(runtime, next);
    }
}

impl<E: Copy> ProcessMut<E> for AwaitProcess {
    /// As `call`; `next` is then handed a fresh `await` on the same signal.
    fn call_mut(self, runtime: &mut Runtime<E>, next: ContinuationMut<E>) {
        let signal = self.signal;
        runtime.register_later_present(signal, Callback::Reawait { signal, next });
    }
}

impl<E: Copy> Process<E> for AwaitImmediateProcess {
    open spec fn term(self) -> AnyProcess<E> {
        AnyProcess::AwaitImmediate(self)
    }

    fn into_any(self) -> (process: AnyProcess<E>) {
        AnyProcess::AwaitImmediate(self)
    }

    /// Resumes `next` at once if the signal is present; else leaves it with
    /// the signal, to be resumed in the instant in which the signal is present.
    fn call(self, runtime: &mut Runtime<E>, next: Continuation) {
        self.signal.on_present(runtime, next);
    }
}

impl<E: Copy> ProcessMut<E> for AwaitImmediateProcess {
    /// As `call`; `next` is then handed a fresh `await_immediate` on the same signal.
    fn call_mut(self, runtime: &mut Runtime<E>, next: ContinuationMut<E>) {
        let signal = self.signal;
        if runtime.is_present(signal) {
            next.call(runtime, AnyProcess::AwaitImmediate(AwaitImmediateProcess { signal }), Value::Unit);
        } else {
            runtime.register_present(signal, Callback::ReawaitImmediate { signal, next });
        }
    }
}

impl<E: Copy> Process<E> for PresentProcess<E> {
    open spec fn term(self) -> AnyProcess<E> {
        AnyProcess::Present(self)
    }

    fn into_any(self) -> (process: AnyProcess<E>) {
        AnyProcess::Present(self)
    }

    /// Runs `process_if` at once if the signal is present. Else parks both
    /// branches with `next` in a cell and leaves two callbacks with the
    /// signal: one for its presence in this instant or a later one, one for
    /// its absence at the close of this instant. Whichever fires first takes
    /// the cell and runs its branch; the other finds the cell taken and does
    /// nothing.
    fn call(self, runtime: &mut Runtime<E>, next: Continuation)
        decreases self,
    {
        let signal = self.signal;
        if runtime.is_present(signal) {
            let process_if = *self.process_if;
            process_if.call(runtime, next);
        } else {
            let cell = runtime.park(
                Parked::Once {
                    process_if: *self.process_if,
                    process_else: *self.process_else,
                    next,
                },
            );
            runtime.register_present(signal, Callback::IfPresent { cell });
            runtime.register_absent(signal, Callback::IfAbsent { cell });
        }
    }
}

impl<E: Copy> ProcessMut<E> for PresentProcess<E> {
    /// As `call`, with the branch that runs run by its own `call_mut`. The
    /// `present` handed to `next` holds, for the branch that ran, what that
    /// branch handed back, and for the other branch the process as it was
    /// given.
    fn call_mut(self, runtime: &mut Runtime<E>, next: ContinuationMut<E>)
        decreases self,
    {
        let signal = self.signal;
        if runtime.is_present(signal) {
            let process_if = *self.process_if;
            process_if.call_mut(
                runtime,
                ContinuationMut::RebuildIf {
                    signal,
                    process_else: *self.process_else,
                    next: Box::new(next),
                },
            );
        } else {
            let cell = runtime.park(
                Parked::Repeat {
                    signal,
                    process_if: *self.process_if,
                    process_else: *self.process_else,
                    next,
                },
            );
            runtime.register_present(signal, Callback::IfPresent { cell });
            runtime.register_absent(signal, Callback::IfAbsent { cell });
        }
    }
}

impl<E: Copy> Process<E> for AnyProcess<E> {
    open spec fn term(self) -> AnyProcess<E> {
        self
    }

    fn into_any(self) -> (process: AnyProcess<E>) {
        self
    }

    fn call(self, runtime: &mut Runtime<E>, next: Continuation)
        decreases self,
    {
        match self {
            AnyProcess::Emit(p) => p.call(runtime, next),
            AnyProcess::Await(p) => p.call(runtime, next),
            AnyProcess::AwaitImmediate(p) => p.call(runtime, next),
            AnyProcess::Present(p) => p.call(runtime, next),
        }
    }
}

impl<E: Copy> ProcessMut<E> for AnyProcess<E> {
    fn call_mut(self, runtime: &mut Runtime<E>, next: ContinuationMut<E>)
        decreases self,
    {
        match self {
            AnyProcess::Emit(p) => p.call_mut(runtime, next),
            AnyProcess::Await(p) => p.call_mut(runtime, next),
            AnyProcess::AwaitImmediate(p) => p.call_mut(runtime, next),
            AnyProcess::Present(p) => p.call_mut(runtime, next),
        }
    }
}

impl<E: Copy> Copy for EmitProcess<E> {}

impl<E: Copy> Clone for EmitProcess<E> {
    fn clone(&self) -> (copy: Self)
        ensures
            copy == *self,
    {
        *self
    }
}

impl<E: Copy> Clone for AnyProcess<E> {
    fn clone(&self) -> (copy: Self)
        ensures
            copy == *self,
        decreases *self,
    {
        match self {
            AnyProcess::Emit(p) => AnyProcess::Emit(*p),
            AnyProcess::Await(p) => AnyProcess::Await(*p),
            AnyProcess::AwaitImmediate(p) => AnyProcess::AwaitImmediate(*p),
            AnyProcess::Present(p) => AnyProcess::Present(p.clone()),
        }
    }
}

impl<E: Copy> Clone for PresentProcess<E> {
    fn clone(&self) -> (copy: Self)
        ensures
            copy == *self,
        decreases *self,
    {
        PresentProcess {
            signal: self.signal,
            process_if: Box::new((*self.process_if).clone()),
            process_else: Box::new((*self.process_else).clone()),
        }
    }
}

} // verus!
