use crate::continuation::{Branch, Callback, Cell, Delivery, Parked, Task, Value};
use crate::model::{scheduled, tasks, RuntimeView, SignalView};
use crate::process::AnyProcess;
use crate::signal::SignalRuntimeRef;
use std::collections::VecDeque;
use vstd::prelude::*;

verus! {

/// State of one signal: what was emitted in this instant, and who waits.
struct SignalState<E> {
    value: Option<E>,
    on_present: Vec<Callback<E>>,
    later_on_present: Vec<Callback<E>>,
    later_on_absent: Vec<Callback<E>>,
}

impl<E> View for SignalState<E> {
    type V = SignalView<E>;

    closed spec fn view(&self) -> SignalView<E> {
        SignalView {
            value: self.value,
            on_present: self.on_present@,
            later_on_present: self.later_on_present@,
            later_on_absent: self.later_on_absent@,
        }
    }
}

/// The driver of the instants: it owns the state of every signal, the cells
/// of the parked `present` processes, the callbacks that are due and what
/// finished computations delivered.
pub struct Runtime<E> {
    instant: u64,
    signals: Vec<SignalState<E>>,
    cells: Vec<Cell<E>>,
    ready: VecDeque<Task<E>>,
    deliveries: Vec<Delivery<E>>,
}

impl<E> View for Runtime<E> {
    type V = RuntimeView<E>;

    closed spec fn view(&self) -> RuntimeView<E> {
        RuntimeView {
            instant: self.instant,
            signals: Seq::new(self.signals@.len(), |i: int| self.signals@[i]@),
            cells: self.cells@,
            ready: self.ready@,
            deliveries: self.deliveries@,
        }
    }
}

impl<E: Copy> Runtime<E> {
    /// A runtime at instant 0 that knows no signal.
    pub fn new() -> (runtime: Self)
        ensures
            runtime@ == RuntimeView::<E>::empty(),
    {
        let runtime = Runtime {
            instant: 0,
            signals: Vec::new(),
            cells: Vec::new(),
            ready: VecDeque::new(),
            deliveries: Vec::new(),
        };
        assert(runtime@.signals =~= Seq::empty());
        runtime
    }

    /// Every runtime in memory fits the machine.
    pub proof fn fits(&self)
        ensures
            self@.fits(),
    {
        assert(self@.signals.len() == self.signals.len());
        assert(self@.cells.len() == self.cells.len());
    }

    /// Makes a signal that nobody has touched and returns its handle.
    pub fn new_signal(&mut self) -> (signal: SignalRuntimeRef)
        ensures
            signal.id == old(self)@.signals.len(),
            final(self)@ == old(self)@.new_signal(),
    {
        let id = self.signals.len();
        self.signals.push(
            SignalState {
                value: None,
                on_present: Vec::new(),
                later_on_present: Vec::new(),
                later_on_absent: Vec::new(),
            },
        );
        assert(self@.signals =~= old(self)@.new_signal().signals);
        SignalRuntimeRef { id }
    }

    /// Number of the current instant.
    pub fn instant(&self) -> (instant: u64)
        ensures
            instant == self@.instant,
    {
        self.instant
    }

    /// Whether the signal was emitted in this instant.
    pub fn is_present(&self, signal: SignalRuntimeRef) -> (present: bool)
        ensures
            present == self@.is_present(signal),
    {
        signal.id < self.signals.len() && self.signals[signal.id].value.is_some()
    }

    /// Payload of the last emission of the signal in this instant.
    pub fn value(&self, signal: SignalRuntimeRef) -> (value: Option<E>)
        ensures
            value == if self@.has_signal(signal) {
                self@.signals[signal.id as int].value
            } else {
                None
            },
    {
        if signal.id < self.signals.len() {
            self.signals[signal.id].value
        } else {
            None
        }
    }

    /// Number of callbacks that are due in this instant.
    pub fn pending(&self) -> (pending: usize)
        ensures
            pending == self@.ready.len(),
    {
        self.ready.len()
    }

    /// Makes `callbacks` due with `value`, in their order, behind what is due already.
    fn schedule(&mut self, callbacks: Vec<Callback<E>>, value: Value<E>)
        ensures
            final(self)@ == (RuntimeView {
                ready: old(self)@.ready + tasks(callbacks@, value),
                ..old(self)@
            }),
    {
        let ghost before = self.ready@;
        let ghost all = callbacks@;
        let ghost rest = *self;
        for callback in it: callbacks
            invariant
                it.seq() == all,
                self.ready@ =~= before + tasks(all.take(it.index() as int), value),
                self.instant == rest.instant,
                self.signals == rest.signals,
                self.cells == rest.cells,
                self.deliveries == rest.deliveries,
        {
            self.ready.push_back(Task { callback, value });
        }
        assert(all.take(all.len() as int) =~= all);
    }

    /// Records an emission: the signal is present with `value`, and those
    /// who waited for its presence are due in this instant.
    pub fn emit(&mut self, signal: SignalRuntimeRef, value: E)
        ensures
            final(self)@ == old(self)@.emit(signal, value),
    {
        if signal.id < self.signals.len() {
            let mut woken: Vec<Callback<E>> = Vec::new();
            let state = &mut self.signals[signal.id];
            std::mem::swap(&mut woken, &mut state.on_present);
            state.value = Some(value);
            assert(self@.signals =~= old(self)@.emit(signal, value).signals);
            self.schedule(woken, Value::Unit);
        }
    }

    /// Registers `callback` to fire in the instant in which the signal is present.
    pub fn register_present(&mut self, signal: SignalRuntimeRef, callback: Callback<E>)
        ensures
            final(self)@ == old(self)@.register_present(signal, callback),
    {
        if signal.id < self.signals.len() {
            let state = &mut self.signals[signal.id];
            state.on_present.push(callback);
            assert(self@.signals =~= old(self)@.register_present(signal, callback).signals);
        }
    }

    /// Registers `callback` to fire in the instant after one in which the
    /// signal was present.
    pub fn register_later_present(&mut self, signal: SignalRuntimeRef, callback: Callback<E>)
        ensures
            final(self)@ == old(self)@.register_later_present(signal, callback),
    {
        if signal.id < self.signals.len() {
            let state = &mut self.signals[signal.id];
            state.later_on_present.push(callback);
            assert(self@.signals =~= old(self)@.register_later_present(signal, callback).signals);
        }
    }

    /// Registers `callback` to fire in the next instant if this one closes
    /// without an emission of the signal.
    pub fn register_absent(&mut self, signal: SignalRuntimeRef, callback: Callback<E>)
        ensures
            final(self)@ == old(self)@.register_absent(signal, callback),
    {
        if signal.id < self.signals.len() {
            let state = &mut self.signals[signal.id];
            state.later_on_absent.push(callback);
            assert(self@.signals =~= old(self)@.register_absent(signal, callback).signals);
        }
    }

    /// Puts `parked` into a new cell and returns the cell's number.
    pub fn park(&mut self, parked: Parked<E>) -> (cell: usize)
        ensures
            cell == old(self)@.cells.len(),
            final(self)@ == old(self)@.park(parked),
    {
        let cell = self.cells.len();
        self.cells.push(Cell::Pending { parked });
        cell
    }

    /// Takes for `branch` what cell `cell` holds. A second take finds
    /// nothing and leaves the cell to the branch that took it.
    pub fn take(&mut self, cell: usize, branch: Branch) -> (parked: Option<Parked<E>>)
        ensures
            parked == old(self)@.parked(cell),
            final(self)@ == old(self)@.take(cell, branch),
    {
        if cell < self.cells.len() {
            let mut state = match branch {
                Branch::Present => Cell::FiredPresent,
                Branch::Absent => Cell::FiredAbsent,
            };
            let slot = &mut self.cells[cell];
            std::mem::swap(&mut state, slot);
            match state {
                Cell::Pending { parked } => Some(parked),
                fired => {
                    *slot = fired;
                    assert(self@.cells =~= old(self)@.cells);
                    None
                },
            }
        } else {
            None
        }
    }

    /// The branch that has taken cell `cell`, if one has.
    pub fn fired(&self, cell: usize) -> (branch: Option<Branch>)
        ensures
            branch == self@.fired(cell),
    {
        if cell < self.cells.len() {
            match &self.cells[cell] {
                Cell::Pending { .. } => None,
                Cell::FiredPresent => Some(Branch::Present),
                Cell::FiredAbsent => Some(Branch::Absent),
            }
        } else {
            None
        }
    }

    /// Records a delivery, stamped with the current instant.
    pub fn deliver(&mut self, label: u64, process: Option<AnyProcess<E>>, value: Value<E>)
        ensures
            final(self)@ == old(self)@.deliver(label, process, value),
    {
        self.deliveries.push(Delivery { label, instant: self.instant, process, value });
    }

    /// Hands out what was delivered so far, oldest first, and forgets it.
    pub fn take_deliveries(&mut self) -> (deliveries: Vec<Delivery<E>>)
        ensures
            deliveries@ == old(self)@.deliveries,
            final(self)@ == (RuntimeView { deliveries: Seq::empty(), ..old(self)@ }),
    {
        let mut deliveries: Vec<Delivery<E>> = Vec::new();
        std::mem::swap(&mut deliveries, &mut self.deliveries);
        deliveries
    }

    /// Takes the first callback that is due off the queue.
    pub(crate) fn next_task(&mut self) -> (task: Option<Task<E>>)
        ensures
            match task {
                Some(t) => old(self)@.ready.len() > 0 && t == old(self)@.ready[0] && final(self)@ == (
                RuntimeView { ready: old(self)@.ready.drop_first(), ..old(self)@ }),
                None => old(self)@.ready.len() == 0 && final(self)@ == old(self)@,
            },
    {
        self.ready.pop_front()
    }

    /// Closes the instant where it may close, and says whether it did.
    ///
    /// For each signal that was present, those who waited for the instant
    /// after its presence become due with its value, and those who waited
    /// for its absence are dropped. For each signal that was not, those who
    /// waited for its absence become due. Every signal is unknown again.
    pub fn end_instant(&mut self) -> (ended: bool)
        ensures
            ended == old(self)@.can_end(),
            final(self)@ == old(self)@.end_instant(),
    {
        if self.ready.len() > 0 || self.instant == u64::MAX {
            return false;
        }
        let ghost before = self@;
        let count = self.signals.len();
        let mut i: usize = 0;
        while i < count
            invariant
                i <= count,
                before == old(self)@,
                before.can_end(),
                count == before.signals.len(),
                self@.signals.len() == count,
                self@.instant == before.instant,
                self@.cells == before.cells,
                self@.deliveries == before.deliveries,
                self@.ready == scheduled(before.signals, i as int),
                forall|k: int| 0 <= k < i ==> #[trigger] self@.signals[k] == before.signals[k].reset(),
                forall|k: int| i <= k < count ==> #[trigger] self@.signals[k] == before.signals[k],
            decreases count - i,
        {
            let ghost entry = self@;
            let ghost old_state = entry.signals[i as int];
            let mut woken: Vec<Callback<E>> = Vec::new();
            let state = &mut self.signals[i];
            let value = match state.value {
                Some(e) => {
                    std::mem::swap(&mut woken, &mut state.later_on_present);
                    Value::Emitted(e)
                },
                None => {
                    std::mem::swap(&mut woken, &mut state.later_on_absent);
                    Value::Unit
                },
            };
            state.value = None;
            state.later_on_absent = Vec::new();
            assert(self@.signals =~= entry.signals.update(i as int, old_state.reset()));
            self.schedule(woken, value);
            i += 1;
        }
        self.instant = self.instant + 1;
        assert(self@.signals =~= before.end_instant().signals);
        true
    }
}

} // verus!
