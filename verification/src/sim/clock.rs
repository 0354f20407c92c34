//! A simulation clock that tracks steps over a fixed duration.

use vstd::prelude::*;

verus! {

/// A clock over a fixed total of steps, advanced one step at a time.
pub struct Clock {
    /// Current step of the simulation.
    pub current: usize,
    /// Total steps to run in the simulation.
    pub total: usize,
}

impl Clock {
    /// The current step never passes the total.
    pub open spec fn wf(&self) -> bool {
        self.current <= self.total
    }

    /// Creates a new clock with a specified total number of steps,
    /// starting at step zero.
    pub fn new(total: usize) -> (r: Clock)
        ensures
            r.wf(),
            r.current == 0,
            r.total == total,
    {
        Clock { current: 0, total }
    }

    /// Advances the clock by one step: the step number before advancing,
    /// or `None` exactly when the clock has reached its total.
    pub fn tick(&mut self) -> (r: Option<usize>)
        requires
            old(self).wf(),
        ensures
            final(self).wf(),
            final(self).total == old(self).total,
            r == if old(self).current < old(self).total {
                Some(old(self).current)
            } else {
                None::<usize>
            },
            final(self).current == if old(self).current < old(self).total {
                old(self).current + 1
            } else {
                old(self).current as int
            },
    {
        if self.current < self.total {
            let step = self.current;
            self.current = self.current + 1;
            Some(step)
        } else {
            None
        }
    }

    /// Runs the clock to completion and returns every step it visited, in
    /// order: the steps from the current one up to the total.
    pub fn run(&mut self) -> (r: Vec<usize>)
        requires
            old(self).wf(),
        ensures
            final(self).wf(),
            final(self).total == old(self).total,
            final(self).current == old(self).total,
            r@.len() == old(self).total - old(self).current,
            forall|i: int| 0 <= i < r@.len() ==> #[trigger] r@[i] == old(self).current + i,
    {
        let mut steps: Vec<usize> = Vec::new();
        loop
            invariant
                self.wf(),
                self.total == old(self).total,
                old(self).current <= self.current <= self.total,
                steps@.len() == self.current - old(self).current,
                forall|i: int|
                    0 <= i < steps@.len() ==> #[trigger] steps@[i] == old(self).current + i,
            decreases self.total - self.current,
        {
            let next = self.tick();
            match next {
                Some(step) => {
                    steps.push(step);
                },
                None => {
                    return steps;
                },
            }
        }
    }
}

} // verus!
