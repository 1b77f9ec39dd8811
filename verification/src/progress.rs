//! Every instant ends: what is due is fired after finitely many steps.

use crate::continuation::{Branch, Callback, Cell, Continuation, ContinuationMut, Parked, Value};
use crate::model::{RuntimeView, SignalView};
use crate::process::{AnyProcess, AwaitImmediateProcess, AwaitProcess};
use crate::semantics::present_of;
use crate::signal::SignalRuntimeRef;
use vstd::prelude::*;

verus! {

impl<E> AnyProcess<E> {
    /// Number of processes that the process is made of.
    pub open spec fn size(self) -> nat
        decreases self,
    {
        match self {
            AnyProcess::Present(p) => 1 + p.process_if.size() + p.process_else.size(),
            _ => 1,
        }
    }
}

/// What a cell can still make due: twice the size of what is parked in it.
pub open spec fn parked_weight<E>(cell: Cell<E>) -> nat {
    match cell {
        Cell::Pending { parked: Parked::Once { process_if, process_else, next } } => 2 * (
        process_if.size() + process_else.size()),
        Cell::Pending { parked: Parked::Repeat { signal, process_if, process_else, next } } => 2
            * (process_if.size() + process_else.size()),
        _ => 0,
    }
}

/// Sum of the weights of the cells.
pub open spec fn cells_weight<E>(cells: Seq<Cell<E>>) -> nat
    decreases cells.len(),
{
    if cells.len() == 0 {
        0
    } else {
        cells_weight(cells.drop_last()) + parked_weight(cells.last())
    }
}

/// Number of callbacks that wait for the presence of a signal.
pub open spec fn waiting<E>(signals: Seq<SignalView<E>>) -> nat
    decreases signals.len(),
{
    if signals.len() == 0 {
        0
    } else {
        waiting(signals.drop_last()) + signals.last().on_present.len()
    }
}

impl<E> RuntimeView<E> {
    /// A bound on the number of callbacks that can still be fired in the
    /// instant: those that are due, those that an emission can make due, and
    /// those that the parked processes can register.
    pub open spec fn potential(self) -> nat {
        self.ready.len() + waiting(self.signals) + cells_weight(self.cells)
    }

    /// The runtime after everything that is due in the instant was fired.
    pub open spec fn settle(self) -> Self {
        self.run(self.potential())
    }
}

proof fn waiting_update<E>(signals: Seq<SignalView<E>>, i: int, state: SignalView<E>)
    requires
        0 <= i < signals.len(),
    ensures
        waiting(signals.update(i, state)) + signals[i].on_present.len() == waiting(signals)
            + state.on_present.len(),
    decreases signals.len(),
{
    let updated = signals.update(i, state);
    if i == signals.len() - 1 {
        assert(updated.drop_last() =~= signals.drop_last());
    } else {
        waiting_update(signals.drop_last(), i, state);
        assert(updated.drop_last() =~= signals.drop_last().update(i, state));
    }
}

proof fn cells_weight_update<E>(cells: Seq<Cell<E>>, i: int, cell: Cell<E>)
    requires
        0 <= i < cells.len(),
    ensures
        cells_weight(cells.update(i, cell)) + parked_weight(cells[i]) == cells_weight(cells)
            + parked_weight(cell),
    decreases cells.len(),
{
    let updated = cells.update(i, cell);
    if i == cells.len() - 1 {
        assert(updated.drop_last() =~= cells.drop_last());
    } else {
        cells_weight_update(cells.drop_last(), i, cell);
        assert(updated.drop_last() =~= cells.drop_last().update(i, cell));
    }
}

/// An emission leaves the potential as it is: who waited is due.
pub proof fn emit_weighs<E>(rt: RuntimeView<E>, signal: SignalRuntimeRef, value: E)
    ensures
        rt.emit(signal, value).potential() == rt.potential(),
{
    if rt.has_signal(signal) {
        let state = rt.signals[signal.id as int];
        waiting_update(
            rt.signals,
            signal.id as int,
            SignalView { value: Some(value), on_present: Seq::empty(), ..state },
        );
    }
}

/// Who waits for the presence of a signal raises the potential by one; who
/// waits for the close of the instant leaves it as it is.
pub proof fn register_weighs<E>(rt: RuntimeView<E>, signal: SignalRuntimeRef, callback: Callback<E>)
    ensures
        rt.register_present(signal, callback).potential() <= rt.potential() + 1,
        rt.register_later_present(signal, callback).potential() == rt.potential(),
        rt.register_absent(signal, callback).potential() == rt.potential(),
{
    if rt.has_signal(signal) {
        let id = signal.id as int;
        let state = rt.signals[id];
        waiting_update(
            rt.signals,
            id,
            SignalView { on_present: state.on_present.push(callback), ..state },
        );
        waiting_update(
            rt.signals,
            id,
            SignalView { later_on_present: state.later_on_present.push(callback), ..state },
        );
        waiting_update(
            rt.signals,
            id,
            SignalView { later_on_absent: state.later_on_absent.push(callback), ..state },
        );
    }
}

/// Parking raises the potential by the weight of what is parked; taking
/// lowers it by the weight of what is taken.
pub proof fn cell_weighs<E>(rt: RuntimeView<E>, parked: Parked<E>, cell: usize, branch: Branch)
    ensures
        rt.park(parked).potential() == rt.potential() + parked_weight(Cell::Pending { parked }),
        rt.parked(cell) matches Some(held) ==> rt.take(cell, branch).potential() + parked_weight(
            Cell::Pending { parked: held },
        ) == rt.potential(),
        rt.parked(cell) is None ==> rt.take(cell, branch) == rt,
{
    assert(rt.cells.push(Cell::Pending { parked }).drop_last() =~= rt.cells);
    if rt.parked(cell) is Some {
        cells_weight_update(rt.cells, cell as int, Cell::FiredPresent);
        cells_weight_update(rt.cells, cell as int, Cell::FiredAbsent);
    }
}

/// Resuming a continuation leaves the potential as it is.
pub proof fn applied_weighs<E>(
    next: ContinuationMut<E>,
    rt: RuntimeView<E>,
    process: AnyProcess<E>,
    value: Value<E>,
)
    ensures
        next.applied(rt, process, value).potential() == rt.potential(),
    decreases next,
{
    match next {
        ContinuationMut::Report { label } => {},
        ContinuationMut::RebuildIf { signal, process_else, next } => {
            applied_weighs(*next, rt, present_of(signal, process, process_else), value);
        },
        ContinuationMut::RebuildElse { signal, process_if, next } => {
            applied_weighs(*next, rt, present_of(signal, process_if, process), value);
        },
    }
}

/// A `present` on a signal that is not present raises the potential by the
/// weight of its branches and by one for the callback that waits for the
/// presence.
proof fn parking_weighs<E>(rt: RuntimeView<E>, signal: SignalRuntimeRef, parked: Parked<E>)
    ensures
        rt.park(parked).register_present(
            signal,
            Callback::IfPresent { cell: rt.cells.len() as usize },
        ).register_absent(signal, Callback::IfAbsent { cell: rt.cells.len() as usize }).potential()
            <= rt.potential() + parked_weight(Cell::Pending { parked }) + 1,
{
    let cell = rt.cells.len() as usize;
    let a = rt.park(parked);
    let b = a.register_present(signal, Callback::IfPresent { cell });
    cell_weighs(rt, parked, cell, Branch::Present);
    register_weighs(a, signal, Callback::IfPresent { cell });
    register_weighs(b, signal, Callback::IfAbsent { cell });
}

/// `call` raises the potential by no more than twice the size of the process.
pub proof fn called_weighs<E>(process: AnyProcess<E>, rt: RuntimeView<E>, next: Continuation)
    ensures
        process.called(rt, next).potential() <= rt.potential() + 2 * process.size(),
    decreases process,
{
    match process {
        AnyProcess::Emit(p) => {
            emit_weighs(rt, p.signal, p.value);
        },
        AnyProcess::Await(p) => {
            register_weighs(rt, p.signal, Callback::Resume { next });
        },
        AnyProcess::AwaitImmediate(p) => {
            register_weighs(rt, p.signal, Callback::Resume { next });
        },
        AnyProcess::Present(p) => {
            if rt.is_present(p.signal) {
                called_weighs(*p.process_if, rt, next);
            } else {
                parking_weighs(
                    rt,
                    p.signal,
                    Parked::Once { process_if: *p.process_if, process_else: *p.process_else, next },
                );
            }
        },
    }
}

/// `call_mut` raises the potential by no more than twice the size of the process.
pub proof fn called_mut_weighs<E>(
    process: AnyProcess<E>,
    rt: RuntimeView<E>,
    next: ContinuationMut<E>,
)
    ensures
        process.called_mut(rt, next).potential() <= rt.potential() + 2 * process.size(),
    decreases process,
{
    match process {
        AnyProcess::Emit(p) => {
            emit_weighs(rt, p.signal, p.value);
            applied_weighs(next, rt.emit(p.signal, p.value), process, Value::Unit);
        },
        AnyProcess::Await(p) => {
            register_weighs(rt, p.signal, Callback::Reawait { signal: p.signal, next });
        },
        AnyProcess::AwaitImmediate(p) => {
            register_weighs(rt, p.signal, Callback::ReawaitImmediate { signal: p.signal, next });
            applied_weighs(next, rt, process, Value::Unit);
        },
        AnyProcess::Present(p) => {
            if rt.is_present(p.signal) {
                called_mut_weighs(
                    *p.process_if,
                    rt,
                    ContinuationMut::RebuildIf {
                        signal: p.signal,
                        process_else: *p.process_else,
                        next: Box::new(next),
                    },
                );
            } else {
                parking_weighs(
                    rt,
                    p.signal,
                    Parked::Repeat {
                        signal: p.signal,
                        process_if: *p.process_if,
                        process_else: *p.process_else,
                        next,
                    },
                );
            }
        },
    }
}

/// A branch that is fired pays for what it registers with what it takes
/// from its cell.
proof fn branch_weighs<E>(rt: RuntimeView<E>, cell: usize, branch: Branch, value: Value<E>)
    ensures
        branch == Branch::Present ==> (Callback::<E>::IfPresent { cell }).fired(
            rt,
            value,
        ).potential() <= rt.potential(),
        branch == Branch::Absent ==> (Callback::<E>::IfAbsent { cell }).fired(rt, value).potential()
            <= rt.potential(),
{
    let taken = rt.take(cell, branch);
    match rt.parked(cell) {
        Some(Parked::Once { process_if, process_else, next }) => {
            cell_weighs(rt, Parked::Once { process_if, process_else, next }, cell, branch);
            match branch {
                Branch::Present => called_weighs(process_if, taken, next),
                Branch::Absent => called_weighs(process_else, taken, next),
            }
        },
        Some(Parked::Repeat { signal, process_if, process_else, next }) => {
            cell_weighs(rt, Parked::Repeat { signal, process_if, process_else, next }, cell, branch);
            match branch {
                Branch::Present => called_mut_weighs(
                    process_if,
                    taken,
                    ContinuationMut::RebuildIf { signal, process_else, next: Box::new(next) },
                ),
                Branch::Absent => called_mut_weighs(
                    process_else,
                    taken,
                    ContinuationMut::RebuildElse { signal, process_if, next: Box::new(next) },
                ),
            }
        },
        None => {},
    }
}

/// Firing a callback does not raise the potential.
pub proof fn fired_weighs<E>(callback: Callback<E>, rt: RuntimeView<E>, value: Value<E>)
    ensures
        callback.fired(rt, value).potential() <= rt.potential(),
{
    match callback {
        Callback::Resume { next } => {},
        Callback::Reawait { signal, next } => {
            applied_weighs(next, rt, AnyProcess::Await(AwaitProcess { signal }), value);
        },
        Callback::ReawaitImmediate { signal, next } => {
            applied_weighs(
                next,
                rt,
                AnyProcess::AwaitImmediate(AwaitImmediateProcess { signal }),
                Value::Unit,
            );
        },
        Callback::IfPresent { cell } => {
            branch_weighs(rt, cell, Branch::Present, value);
        },
        Callback::IfAbsent { cell } => {
            branch_weighs(rt, cell, Branch::Absent, value);
        },
    }
}

/// Each callback fired lowers the potential.
pub proof fn step_lowers_potential<E>(rt: RuntimeView<E>)
    requires
        rt.ready.len() > 0,
    ensures
        rt.step().potential() < rt.potential(),
{
    let task = rt.ready[0];
    let rest = RuntimeView { ready: rt.ready.drop_first(), ..rt };
    fired_weighs(task.callback, rest, task.value);
}

/// Once nothing is due, more fuel fires nothing more.
pub proof fn run_saturates<E>(rt: RuntimeView<E>, enough: nat, more: nat)
    requires
        rt.run(enough).ready.len() == 0,
        enough <= more,
    ensures
        rt.run(more) == rt.run(enough),
    decreases enough,
{
    if enough > 0 && rt.ready.len() > 0 {
        run_saturates(rt.step(), (enough - 1) as nat, (more - 1) as nat);
    }
}

/// Every instant ends: after as many steps as the potential says, nothing
/// is due any more, and what was fired in one step less is not fired again.
pub proof fn every_instant_ends<E>(rt: RuntimeView<E>)
    ensures
        rt.settle().ready.len() == 0,
        rt.settle().instant == rt.instant,
        rt.ready.len() > 0 ==> rt.settle() == rt.step().settle(),
        rt.ready.len() == 0 ==> rt.settle() == rt,
    decreases rt.potential(),
{
    if rt.ready.len() > 0 {
        step_lowers_potential(rt);
        every_instant_ends(rt.step());
        run_saturates(rt.step(), rt.step().potential(), (rt.potential() - 1) as nat);
        crate::order::run_advances(rt, 1);
    }
}

} // verus!
