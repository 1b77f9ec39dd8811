use crate::progress::{every_instant_ends, step_lowers_potential};
use crate::runtime::Runtime;
use vstd::prelude::*;

verus! {

impl<E: Copy> Runtime<E> {
    /// Fires the first callback that is due, and says whether there was one.
    pub fn step(&mut self) -> (fired: bool)
        ensures
            fired == (old(self)@.ready.len() > 0),
            final(self)@ == old(self)@.step(),
    {
        match self.next_task() {
            Some(task) => {
                task.callback.fire(self, task.value);
                true
            },
            None => false,
        }
    }

    /// Fires callbacks that are due, first come first, until none is due or
    /// `fuel` of them were fired. Says whether none is due any more.
    pub fn run(&mut self, fuel: usize) -> (idle: bool)
        ensures
            final(self)@ == old(self)@.run(fuel as nat),
            idle == (final(self)@.ready.len() == 0),
    {
        let mut left = fuel;
        while left > 0 && self.pending() > 0
            invariant
                self@.run(left as nat) == old(self)@.run(fuel as nat),
            decreases left,
        {
            self.step();
            left = left - 1;
        }
        self.pending() == 0
    }

    /// Fires everything that is due in the instant, first come first, with
    /// what that makes due, until nothing is due any more.
    pub fn settle(&mut self)
        ensures
            final(self)@ == old(self)@.settle(),
            final(self)@.ready.len() == 0,
            final(self)@.instant == old(self)@.instant,
    {
        proof {
            every_instant_ends(self@);
        }
        while self.pending() > 0
            invariant
                self@.settle() == old(self)@.settle(),
            decreases self@.potential(),
        {
            proof {
                every_instant_ends(self@);
                step_lowers_potential(self@);
            }
            self.step();
        }
        proof {
            every_instant_ends(self@);
        }
    }

    /// Runs the instant to its close: fires everything that is due, then
    /// closes the instant. Says whether the instant was closed, which it is
    /// unless the number of the next one cannot be written.
    pub fn run_instant(&mut self) -> (ended: bool)
        ensures
            ended == (old(self)@.instant < u64::MAX),
            final(self)@ == old(self)@.settle().end_instant(),
    {
        proof {
            every_instant_ends(self@);
        }
        self.settle();
        self.end_instant()
    }
}

} // verus!
