use crate::continuation::{Callback, Continuation, Value};
use crate::process::{
    AwaitImmediateProcess, AwaitProcess, EmitProcess, PresentProcess, Process,
};
use crate::runtime::Runtime;
use vstd::prelude::*;

verus! {

/// Handle on the state of one signal of a runtime.
///
/// The handle is an index into the runtime's table of signals: copying it
/// copies the handle, never the state. A handle that a runtime does not know
/// names a signal that is never present there, and what is registered on it
/// is discarded.
#[derive(Clone, Copy, Debug, PartialEq, Eq)]
pub struct SignalRuntimeRef {
    pub id: usize,
}

impl SignalRuntimeRef {
    /// Records an emission: the signal is present for the rest of the
    /// instant, `value` is its value until the next emission, and those who
    /// waited for its presence are due in this instant.
    pub fn emit<E: Copy>(self, runtime: &mut Runtime<E>, value: E)
        ensures
            final(runtime)@ == old(runtime)@.emit(self, value),
    {
        runtime.emit(self, value);
    }

    /// Resumes `next` in the instant in which the signal is present: at once
    /// if it is present already.
    pub fn on_present<E: Copy>(self, runtime: &mut Runtime<E>, next: Continuation)
        ensures
            final(runtime)@ == if old(runtime)@.is_present(self) {
                next.applied(old(runtime)@, Value::Unit)
            } else {
                old(runtime)@.register_present(self, Callback::Resume { next })
            },
    {
        if runtime.is_present(self) {
            next.call(runtime, Value::Unit);
        } else {
            runtime.register_present(self, Callback::Resume { next });
        }
    }

    /// Resumes `next` with the signal's value at the start of the instant
    /// after one in which the signal was present.
    pub fn later_on_present<E: Copy>(self, runtime: &mut Runtime<E>, next: Continuation)
        ensures
            final(runtime)@ == old(runtime)@.register_later_present(self, Callback::Resume { next }),
    {
        runtime.register_later_present(self, Callback::Resume { next });
    }

    /// Resumes `next` at the start of the next instant if this one closes
    /// without an emission of the signal; never, if it does not.
    pub fn later_on_absent<E: Copy>(self, runtime: &mut Runtime<E>, next: Continuation)
        ensures
            final(runtime)@ == old(runtime)@.register_absent(self, Callback::Resume { next }),
    {
        runtime.register_absent(self, Callback::Resume { next });
    }
}

/// Anything that stands for a signal. The constructors build processes on
/// the signal; none of them touches a runtime.
pub trait Signal: Sized {
    /// The handle that the value stands for.
    spec fn handle(self) -> SignalRuntimeRef;

    /// Returns the handle on the signal's state.
    fn runtime(self) -> (handle: SignalRuntimeRef)
        ensures
            handle == self.handle(),
    ;

    /// A process that emits `value` on the signal.
    fn emit_value<E: Copy>(self, value: E) -> (process: EmitProcess<E>)
        ensures
            process == (EmitProcess { signal: self.handle(), value }),
    {
        EmitProcess { signal: self.runtime(), value }
    }

    /// A process that waits for the signal and goes on in the instant after
    /// its presence.
    fn await_next(self) -> (process: AwaitProcess)
        ensures
            process == (AwaitProcess { signal: self.handle() }),
    {
        AwaitProcess { signal: self.runtime() }
    }

    /// A process that waits for the signal and goes on in the instant of its
    /// presence.
    fn await_immediate(self) -> (process: AwaitImmediateProcess)
        ensures
            process == (AwaitImmediateProcess { signal: self.handle() }),
    {
        AwaitImmediateProcess { signal: self.runtime() }
    }

    /// A process that runs `process_if` in this instant if the signal is
    /// present, and `process_else` in the next one if it is not.
    fn present<E: Copy, A: Process<E>, B: Process<E>>(
        self,
        process_if: A,
        process_else: B,
    ) -> (process: PresentProcess<E>)
        ensures
            process == (PresentProcess {
                signal: self.handle(),
                process_if: Box::new(process_if.term()),
                process_else: Box::new(process_else.term()),
            }),
    {
        PresentProcess {
            signal: self.runtime(),
            process_if: Box::new(process_if.into_any()),
            process_else: Box::new(process_else.into_any()),
        }
    }
}

impl Signal for SignalRuntimeRef {
    open spec fn handle(self) -> SignalRuntimeRef {
        self
    }

    fn runtime(self) -> (handle: SignalRuntimeRef) {
        self
    }
}

} // verus!
