//! Combinator core of a synchronous reactive runtime.
//!
//! Programs are built from processes that run in discrete, globally ordered
//! instants and talk through signals. A signal is unknown at the start of an
//! instant, becomes present with its first emission and stays present until
//! the instant closes; its absence is only decided when the instant closes
//! without an emission.
//!
//! A [`Signal`] builds four processes: `emit_value` marks the signal present,
//! `await_next` goes on in the instant after its presence, `await_immediate`
//! in the instant of its presence, and `present` runs one process if the
//! signal is present and another, an instant later, if it is not. Each of
//! them runs once through [`Process::call`] and again and again through
//! [`ProcessMut::call_mut`], which hands the process to run next time to the
//! continuation.
//!
//! Control flow is continuation passing: a process either resumes its
//! continuation at once or leaves a callback with a signal and returns, and
//! the callback is what suspends it. Continuations and callbacks are plain
//! data, so that the effect of every operation is a function on the state of
//! the [`Runtime`], and what a finished computation has to say reaches the
//! driver of the runtime as a [`Delivery`] under the label of its
//! continuation.
//!
//! A driver makes the signals, calls the processes, lets the runtime run the
//! instant to its close with [`Runtime::run_instant`], takes the deliveries,
//! emits what the outside world has to say, and so on, instant by instant.
//!
//! Accumulation rule: a signal keeps the payload of the last emission of the
//! instant, and that payload is what an `await_next` observes.
//!
//! The modules:
//! - [`signal`], [`process`], [`continuation`]: handles, processes,
//!   continuations and callbacks, with what runs them;
//! - [`runtime`], [`scheduler`]: the state of the signals, the cells of the
//!   parked processes and the queue of what is due; steps and the close of an
//!   instant;
//! - [`model`], [`semantics`]: the state of a runtime and the effect of each
//!   operation on it as mathematical functions, which the contracts of the
//!   executable code refer to;
//! - [`order`], [`progress`], [`laws`]: what is proved of those functions in
//!   every state.

pub mod continuation;
pub mod laws;
pub mod model;
pub mod order;
pub mod process;
pub mod progress;
pub mod runtime;
pub mod scheduler;
pub mod semantics;
pub mod signal;

pub use continuation::{
    Branch, Callback, Cell, Continuation, ContinuationMut, Delivery, Parked, Task, Value,
};
pub use model::{RuntimeView, SignalView};
pub use process::{
    AnyProcess, AwaitImmediateProcess, AwaitProcess, EmitProcess, PresentProcess, Process,
    ProcessMut,
};
pub use runtime::Runtime;
pub use signal::{Signal, SignalRuntimeRef};
