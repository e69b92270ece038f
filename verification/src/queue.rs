//! The buffer of calls that wait for a service id.

use vstd::prelude::*;

verus! {

/// Tasks in the order in which they were enqueued.
///
/// The view is the sequence of waiting tasks, oldest first.
pub struct TaskQueue<T> {
    tasks: Vec<T>,
}

impl<T> View for TaskQueue<T> {
    type V = Seq<T>;

    closed spec fn view(&self) -> Seq<T> {
        self.tasks@
    }
}

impl<T> TaskQueue<T> {
    /// A queue that holds nothing.
    pub fn new() -> (queue: Self)
        ensures
            queue@ == Seq::<T>::empty(),
    {
        TaskQueue { tasks: Vec::new() }
    }

    /// Number of waiting tasks.
    pub fn len(&self) -> (n: usize)
        ensures
            n == self@.len(),
    {
        self.tasks.len()
    }

    /// Whether no task waits.
    pub fn is_empty(&self) -> (empty: bool)
        ensures
            empty == (self@.len() == 0),
    {
        self.tasks.len() == 0
    }

    /// Appends `task` behind every task that already waits.
    pub fn enqueue(&mut self, task: T)
        ensures
            final(self)@ == old(self)@.push(task),
    {
        self.tasks.push(task);
    }

    /// Empties the queue and hands out what it held, oldest first.
    pub fn drain(&mut self) -> (tasks: Vec<T>)
        ensures
            tasks@ == old(self)@,
            final(self)@ == Seq::<T>::empty(),
    {
        let mut tasks: Vec<T> = Vec::new();
        std::mem::swap(&mut self.tasks, &mut tasks);
        tasks
    }
}

} // verus!
