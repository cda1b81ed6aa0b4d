//! A list of running tasks that can all be cancelled at once.

use vstd::prelude::*;

verus! {

/// The handles of the tasks started so far and not yet cancelled.
#[derive(Debug)]
pub struct CancellableAsyncTasks<H> {
    tasks: Vec<H>,
}

impl<H> View for CancellableAsyncTasks<H> {
    type V = Seq<H>;

    closed spec fn view(&self) -> Seq<H> {
        self.tasks@
    }
}

impl<H> Default for CancellableAsyncTasks<H> {
    /// No task yet.
    fn default() -> (tasks: Self)
        ensures
            tasks@ == Seq::<H>::empty(),
    {
        CancellableAsyncTasks::new()
    }
}

impl<H> CancellableAsyncTasks<H> {
    /// No task yet.
    pub fn new() -> (tasks: Self)
        ensures
            tasks@ == Seq::<H>::empty(),
    {
        CancellableAsyncTasks { tasks: Vec::new() }
    }

    /// Keeps the handle of a task that was just spawned, after the others.
    pub fn spawn_task(&mut self, task: H)
        ensures
            final(self)@ == old(self)@.push(task),
    {
        self.tasks.push(task);
    }

    /// The number of tasks kept.
    pub fn len(&self) -> (n: usize)
        ensures
            n == self@.len(),
    {
        self.tasks.len()
    }

    /// Cancels every task kept: hands back each kept handle once, in the
    /// order the tasks were spawned, to be aborted, and forgets them all.
    pub fn cancel_all(&mut self) -> (to_abort: Vec<H>)
        ensures
            to_abort@ == old(self)@,
            final(self)@ == Seq::<H>::empty(),
    {
        let mut to_abort: Vec<H> = Vec::new();
        std::mem::swap(&mut to_abort, &mut self.tasks);
        to_abort
    }
}

} // verus!
