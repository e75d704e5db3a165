//! The identity of a task queue, as the scheduler hands it over.

use vstd::prelude::*;

verus! {

/// An opaque, comparable handle to one of the scheduler's task queues.
#[derive(Clone, Copy, Debug, PartialEq, Eq, Structural, Hash)]
pub struct TaskQueueHandle {
    pub index: usize,
}

impl TaskQueueHandle {
    /// The handle of the queue with the given index.
    pub fn new(index: usize) -> (handle: TaskQueueHandle)
        ensures
            handle.index == index,
    {
        TaskQueueHandle { index }
    }

    /// The index of the queue.
    pub fn index(&self) -> (index: usize)
        ensures
            index == self.index,
    {
        self.index
    }
}

} // verus!
