//! Streaming events and response wrappers.

use vstd::prelude::*;
use super::Metadata;
use super::artifact::{Artifact, ArtifactView};
use super::id::{ContextId, TaskId};
use super::message::{Message, MessageView};
use super::task::{Task, TaskState, TaskStatus, TaskStatusView, TaskView, spec_is_terminal};

verus! {

/// Notifies the client of a task status change.
#[derive(Debug)]
pub struct TaskStatusUpdateEvent {
    pub task_id: TaskId,
    pub context_id: ContextId,
    pub status: TaskStatus,
    pub metadata: Option<Metadata>,
}

impl TaskStatusUpdateEvent {
    /// A status update event without metadata.
    pub fn new(task_id: &str, context_id: &str, status: TaskStatus) -> (r: Self)
        ensures
            r.task_id@ == task_id@,
            r.context_id@ == context_id@,
            r.status == status,
            r.metadata is None,
    {
        TaskStatusUpdateEvent {
            task_id: TaskId::from_string(task_id),
            context_id: ContextId::from_string(context_id),
            status,
            metadata: None,
        }
    }
}

impl Clone for TaskStatusUpdateEvent {
    fn clone(&self) -> (r: Self)
        ensures
            r.task_id@ == self.task_id@,
            r.context_id@ == self.context_id@,
            r.status.deep_view() == self.status.deep_view(),
            r.metadata.deep_view() == self.metadata.deep_view(),
    {
        TaskStatusUpdateEvent {
            task_id: self.task_id.clone(),
            context_id: self.context_id.clone(),
            status: self.status.clone(),
            metadata: super::clone_opt_metadata(&self.metadata),
        }
    }
}

/// Notifies the client of an artifact creation or update.
#[derive(Debug)]
pub struct TaskArtifactUpdateEvent {
    pub task_id: TaskId,
    pub context_id: ContextId,
    pub artifact: Artifact,
    /// Append to a previously sent artifact with the same id.
    pub append: bool,
    /// This is the final chunk of the artifact.
    pub last_chunk: bool,
    pub metadata: Option<Metadata>,
}

impl TaskArtifactUpdateEvent {
    /// An artifact update event that neither appends nor ends the artifact.
    pub fn new(task_id: &str, context_id: &str, artifact: Artifact) -> (r: Self)
        ensures
            r.task_id@ == task_id@,
            r.context_id@ == context_id@,
            r.artifact == artifact,
            !r.append,
            !r.last_chunk,
            r.metadata is None,
    {
        TaskArtifactUpdateEvent {
            task_id: TaskId::from_string(task_id),
            context_id: ContextId::from_string(context_id),
            artifact,
            append: false,
            last_chunk: false,
            metadata: None,
        }
    }
}

impl Clone for TaskArtifactUpdateEvent {
    fn clone(&self) -> (r: Self)
        ensures
            r.task_id@ == self.task_id@,
            r.context_id@ == self.context_id@,
            r.artifact.deep_view() == self.artifact.deep_view(),
            r.append == self.append,
            r.last_chunk == self.last_chunk,
            r.metadata.deep_view() == self.metadata.deep_view(),
    {
        TaskArtifactUpdateEvent {
            task_id: self.task_id.clone(),
            context_id: self.context_id.clone(),
            artifact: self.artifact.clone(),
            append: self.append,
            last_chunk: self.last_chunk,
            metadata: super::clone_opt_metadata(&self.metadata),
        }
    }
}

/// A streaming event: a task snapshot, a message, a status update or an
/// artifact update.
#[derive(Debug)]
pub enum StreamResponse {
    Task(Task),
    Message(Message),
    StatusUpdate(TaskStatusUpdateEvent),
    ArtifactUpdate(TaskArtifactUpdateEvent),
}

/// The task id an event carries; a message without one carries the empty id.
pub open spec fn event_task_id(e: StreamResponse) -> Seq<char> {
    match e {
        StreamResponse::Task(t) => t.id@,
        StreamResponse::Message(m) => match m.task_id {
            Some(t) => t@,
            None => Seq::empty(),
        },
        StreamResponse::StatusUpdate(u) => u.task_id@,
        StreamResponse::ArtifactUpdate(u) => u.task_id@,
    }
}

/// The context id an event carries; a message without one carries the empty id.
pub open spec fn event_context_id(e: StreamResponse) -> Seq<char> {
    match e {
        StreamResponse::Task(t) => t.context_id@,
        StreamResponse::Message(m) => match m.context_id {
            Some(c) => c@,
            None => Seq::empty(),
        },
        StreamResponse::StatusUpdate(u) => u.context_id@,
        StreamResponse::ArtifactUpdate(u) => u.context_id@,
    }
}

/// Whether an event ends the stream: a terminal task, any message, or a
/// status update to a terminal state.
pub open spec fn event_is_terminal(e: StreamResponse) -> bool {
    match e {
        StreamResponse::Task(t) => spec_is_terminal(t.status.state),
        StreamResponse::Message(_) => true,
        StreamResponse::StatusUpdate(u) => spec_is_terminal(u.status.state),
        StreamResponse::ArtifactUpdate(_) => false,
    }
}

/// A task event ends a send exactly when the task's state is terminal, just
/// as a status update to the same state does: a submitted, working or
/// interrupted task is no final answer.
pub proof fn lemma_task_event_terminal(t: Task, u: TaskStatusUpdateEvent)
    ensures
        event_is_terminal(StreamResponse::Task(t)) <==> spec_is_terminal(t.status.state),
        u.status.state == t.status.state ==> (event_is_terminal(StreamResponse::Task(t))
            <==> event_is_terminal(StreamResponse::StatusUpdate(u))),
        t.status.state == TaskState::Submitted || t.status.state == TaskState::Working
            || t.status.state == TaskState::InputRequired || t.status.state == TaskState::AuthRequired
            ==> !event_is_terminal(StreamResponse::Task(t)),
        t.status.state == TaskState::Completed || t.status.state == TaskState::Failed
            || t.status.state == TaskState::Canceled || t.status.state == TaskState::Rejected
            ==> event_is_terminal(StreamResponse::Task(t)),
{
}

impl StreamResponse {
    /// The task id of the event (empty for a message without one).
    pub fn task_id(&self) -> (r: &str)
        ensures
            r@ == event_task_id(*self),
    {
        proof { reveal_strlit(""); }
        match self {
            StreamResponse::Task(t) => t.id.as_str(),
            StreamResponse::Message(m) => match &m.task_id {
                Some(t) => t.as_str(),
                None => "",
            },
            StreamResponse::StatusUpdate(u) => u.task_id.as_str(),
            StreamResponse::ArtifactUpdate(u) => u.task_id.as_str(),
        }
    }

    /// The context id of the event (empty for a message without one).
    pub fn context_id(&self) -> (r: &str)
        ensures
            r@ == event_context_id(*self),
    {
        proof { reveal_strlit(""); }
        match self {
            StreamResponse::Task(t) => t.context_id.as_str(),
            StreamResponse::Message(m) => match &m.context_id {
                Some(c) => c.as_str(),
                None => "",
            },
            StreamResponse::StatusUpdate(u) => u.context_id.as_str(),
            StreamResponse::ArtifactUpdate(u) => u.context_id.as_str(),
        }
    }

    /// Whether this event represents a terminal condition.
    pub fn is_terminal(&self) -> (r: bool)
        ensures
            r == event_is_terminal(*self),
            *self matches StreamResponse::Task(t) ==> r == spec_is_terminal(t.status.state),
            *self matches StreamResponse::StatusUpdate(u) ==> r == spec_is_terminal(u.status.state),
    {
        match self {
            StreamResponse::Task(t) => t.is_terminal(),
            StreamResponse::Message(_) => true,
            StreamResponse::StatusUpdate(u) => u.status.state.is_terminal(),
            StreamResponse::ArtifactUpdate(_) => false,
        }
    }
}

/// The result of a non-streaming send: a task or a direct message.
#[derive(Debug)]
pub enum SendMessageResponse {
    Task(Task),
    Message(Message),
}

} // verus!
