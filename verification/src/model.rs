use crate::continuation::{Branch, Callback, Cell, Delivery, Parked, Task, Value};
use crate::process::AnyProcess;
use crate::signal::SignalRuntimeRef;
use vstd::prelude::*;

verus! {

/// State of one signal.
pub struct SignalView<E> {
    /// Payload of the last emission of this instant; `None` while the signal
    /// is not known to be present.
    pub value: Option<E>,
    /// Callbacks to fire in the instant in which the signal is present.
    pub on_present: Seq<Callback<E>>,
    /// Callbacks to fire in the instant after one in which it was present.
    pub later_on_present: Seq<Callback<E>>,
    /// Callbacks to fire in the next instant if this one closes without an emission.
    pub later_on_absent: Seq<Callback<E>>,
}

/// State of a runtime.
pub struct RuntimeView<E> {
    /// Number of the current instant.
    pub instant: u64,
    pub signals: Seq<SignalView<E>>,
    /// Take-once cells of the `present` processes that were parked.
    pub cells: Seq<Cell<E>>,
    /// Callbacks due in this instant, first come first.
    pub ready: Seq<Task<E>>,
    /// What finished computations delivered, oldest first.
    pub deliveries: Seq<Delivery<E>>,
}

/// The callbacks `callbacks`, each due with `value`.
pub open spec fn tasks<E>(callbacks: Seq<Callback<E>>, value: Value<E>) -> Seq<Task<E>> {
    Seq::new(callbacks.len(), |i: int| Task { callback: callbacks[i], value })
}

impl<E> SignalView<E> {
    /// A signal nobody has touched.
    pub open spec fn fresh() -> Self {
        SignalView {
            value: None,
            on_present: Seq::empty(),
            later_on_present: Seq::empty(),
            later_on_absent: Seq::empty(),
        }
    }

    /// What the close of an instant makes due for this signal: those who
    /// waited for its presence, with its value, if it was present; those who
    /// waited for its absence if it was not.
    pub open spec fn woken(self) -> Seq<Task<E>> {
        match self.value {
            Some(e) => tasks(self.later_on_present, Value::Emitted(e)),
            None => tasks(self.later_on_absent, Value::Unit),
        }
    }

    /// The signal at the start of the next instant: unknown again. Those who
    /// wait for its presence in their own instant stay; so do those who wait
    /// for the instant after its presence, if it was not present.
    pub open spec fn reset(self) -> Self {
        SignalView {
            value: None,
            on_present: self.on_present,
            later_on_present: if self.value is Some {
                Seq::empty()
            } else {
                self.later_on_present
            },
            later_on_absent: Seq::empty(),
        }
    }
}

/// What the close of an instant makes due for the first `n` signals, in the
/// order of the signals and, for each, in the order of registration.
pub open spec fn scheduled<E>(signals: Seq<SignalView<E>>, n: int) -> Seq<Task<E>>
    decreases n,
{
    if n <= 0 {
        Seq::empty()
    } else {
        scheduled(signals, n - 1) + signals[n - 1].woken()
    }
}

impl<E> RuntimeView<E> {
    /// A runtime at instant 0 without signals.
    pub open spec fn empty() -> Self {
        RuntimeView {
            instant: 0,
            signals: Seq::empty(),
            cells: Seq::empty(),
            ready: Seq::empty(),
            deliveries: Seq::empty(),
        }
    }

    /// The lengths fit the machine, as those of every runtime in memory do.
    pub open spec fn fits(self) -> bool {
        self.signals.len() <= usize::MAX && self.cells.len() <= usize::MAX
    }

    /// The runtime knows the handle.
    pub open spec fn has_signal(self, signal: SignalRuntimeRef) -> bool {
        signal.id < self.signals.len()
    }

    /// The signal was emitted in this instant.
    pub open spec fn is_present(self, signal: SignalRuntimeRef) -> bool {
        self.has_signal(signal) && self.signals[signal.id as int].value is Some
    }

    /// The state of `signal` replaced.
    pub open spec fn with_signal(self, signal: SignalRuntimeRef, state: SignalView<E>) -> Self {
        RuntimeView { signals: self.signals.update(signal.id as int, state), ..self }
    }

    /// One more signal, whose handle is the number of signals before.
    pub open spec fn new_signal(self) -> Self {
        RuntimeView { signals: self.signals.push(SignalView::fresh()), ..self }
    }

    /// An emission: the signal is present with `value`, and those who waited
    /// for its presence are due in this instant.
    pub open spec fn emit(self, signal: SignalRuntimeRef, value: E) -> Self {
        if self.has_signal(signal) {
            let state = self.signals[signal.id as int];
            RuntimeView {
                ready: self.ready + tasks(state.on_present, Value::Unit),
                ..self.with_signal(
                    signal,
                    SignalView { value: Some(value), on_present: Seq::empty(), ..state },
                )
            }
        } else {
            self
        }
    }

    /// `callback` waits for the presence of `signal`, to fire in that instant.
    pub open spec fn register_present(self, signal: SignalRuntimeRef, callback: Callback<E>) -> Self {
        if self.has_signal(signal) {
            let state = self.signals[signal.id as int];
            self.with_signal(
                signal,
                SignalView { on_present: state.on_present.push(callback), ..state },
            )
        } else {
            self
        }
    }

    /// `callback` waits for the presence of `signal`, to fire in the instant after.
    pub open spec fn register_later_present(
        self,
        signal: SignalRuntimeRef,
        callback: Callback<E>,
    ) -> Self {
        if self.has_signal(signal) {
            let state = self.signals[signal.id as int];
            self.with_signal(
                signal,
                SignalView { later_on_present: state.later_on_present.push(callback), ..state },
            )
        } else {
            self
        }
    }

    /// `callback` waits for this instant to close without an emission of `signal`.
    pub open spec fn register_absent(self, signal: SignalRuntimeRef, callback: Callback<E>) -> Self {
        if self.has_signal(signal) {
            let state = self.signals[signal.id as int];
            self.with_signal(
                signal,
                SignalView { later_on_absent: state.later_on_absent.push(callback), ..state },
            )
        } else {
            self
        }
    }

    /// A new cell that holds `parked`; its number is the number of cells before.
    pub open spec fn park(self, parked: Parked<E>) -> Self {
        RuntimeView { cells: self.cells.push(Cell::Pending { parked }), ..self }
    }

    /// What cell `cell` holds; nothing if it was fired or never made.
    pub open spec fn parked(self, cell: usize) -> Option<Parked<E>> {
        if cell < self.cells.len() {
            match self.cells[cell as int] {
                Cell::Pending { parked } => Some(parked),
                _ => None,
            }
        } else {
            None
        }
    }

    /// The branch that has taken cell `cell`, if one has.
    pub open spec fn fired(self, cell: usize) -> Option<Branch> {
        if cell < self.cells.len() {
            match self.cells[cell as int] {
                Cell::Pending { parked } => None,
                Cell::FiredPresent => Some(Branch::Present),
                Cell::FiredAbsent => Some(Branch::Absent),
            }
        } else {
            None
        }
    }

    /// Cell `cell` taken by `branch`, if its branches still wait; else nothing.
    pub open spec fn take(self, cell: usize, branch: Branch) -> Self {
        if self.parked(cell) is Some {
            RuntimeView {
                cells: self.cells.update(
                    cell as int,
                    match branch {
                        Branch::Present => Cell::FiredPresent,
                        Branch::Absent => Cell::FiredAbsent,
                    },
                ),
                ..self
            }
        } else {
            self
        }
    }

    /// One more delivery, stamped with the current instant.
    pub open spec fn deliver(self, label: u64, process: Option<AnyProcess<E>>, value: Value<E>) -> Self {
        RuntimeView {
            deliveries: self.deliveries.push(
                Delivery { label, instant: self.instant, process, value },
            ),
            ..self
        }
    }

    /// The instant may close: nothing is due any more in it, and the number
    /// of the next one can be written.
    pub open spec fn can_end(self) -> bool {
        self.ready.len() == 0 && self.instant < u64::MAX
    }

    /// The close of the instant, where it may close; else nothing.
    pub open spec fn end_instant(self) -> Self {
        if self.can_end() {
            RuntimeView {
                instant: (self.instant + 1) as u64,
                signals: Seq::new(self.signals.len(), |i: int| self.signals[i].reset()),
                ready: scheduled(self.signals, self.signals.len() as int),
                ..self
            }
        } else {
            self
        }
    }
}

} // verus!
