//! What a client sees of an agent's replies.

use vstd::prelude::*;
use crate::types::event::{TaskArtifactUpdateEvent, TaskStatusUpdateEvent};
use crate::types::message::Message;
use crate::types::task::Task;

verus! {

/// An update that came with a task in a streamed reply.
#[derive(Debug, Clone)]
pub enum UpdateEvent {
    /// A status update.
    Status(TaskStatusUpdateEvent),
    /// An artifact update.
    Artifact(TaskArtifactUpdateEvent),
}

/// One reply a client gets while a message is processed.
#[derive(Debug, Clone)]
pub enum ClientEvent {
    /// The task in its current state, with the update that led to it.
    TaskUpdate {
        /// The task.
        task: Task,
        /// The update, if any.
        update: Option<UpdateEvent>,
    },
    /// A direct message reply.
    Message(Message),
}

} // verus!
