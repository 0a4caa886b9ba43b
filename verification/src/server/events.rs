//! Errors of the event queue registry.

use vstd::prelude::*;

verus! {

/// No event queue exists for a task.
#[derive(Debug)]
pub struct NoTaskQueue {
    /// The task without a queue.
    pub task_id: String,
}

impl Clone for NoTaskQueue {
    fn clone(&self) -> (r: Self)
        ensures
            r.task_id@ == self.task_id@,
    {
        NoTaskQueue { task_id: self.task_id.clone() }
    }
}

impl NoTaskQueue {
    /// How the error is printed.
    pub fn display_text(&self) -> (r: String)
        ensures
            r@ == "No event queue exists for task: "@ + self.task_id@,
    {
        "No event queue exists for task: ".to_owned().concat(self.task_id.as_str())
    }
}

/// An event queue already exists for a task.
#[derive(Debug)]
pub struct TaskQueueExists {
    /// The task that has a queue.
    pub task_id: String,
}

impl Clone for TaskQueueExists {
    fn clone(&self) -> (r: Self)
        ensures
            r.task_id@ == self.task_id@,
    {
        TaskQueueExists { task_id: self.task_id.clone() }
    }
}

impl TaskQueueExists {
    /// How the error is printed.
    pub fn display_text(&self) -> (r: String)
        ensures
            r@ == "Event queue already exists for task: "@ + self.task_id@,
    {
        "Event queue already exists for task: ".to_owned().concat(self.task_id.as_str())
    }
}

} // verus!
