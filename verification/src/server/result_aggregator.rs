//! Folding the events of an agent run into the state of its task.

use vstd::prelude::*;
use crate::error::A2AError;
use crate::types::artifact::{Artifact, ArtifactView};
use crate::types::event::{TaskArtifactUpdateEvent, TaskStatusUpdateEvent};
use crate::types::message::Message;
use crate::types::part::{Part, PartView};
use crate::types::task::{Task, TaskState, TaskStatus, TaskView, apply_artifact, spec_is_terminal};

verus! {

/// An event produced while an agent runs.
#[derive(Debug)]
pub enum AgentEvent {
    /// A status update.
    StatusUpdate(TaskStatusUpdateEvent),
    /// An artifact update.
    ArtifactUpdate(TaskArtifactUpdateEvent),
    /// A message.
    Message(Message),
    /// The end of the event stream.
    EndOfStream,
}

/// Whether an event ends the run: a status update to a terminal state, or
/// the end of the stream.
pub open spec fn event_is_final(e: AgentEvent) -> bool {
    match e {
        AgentEvent::StatusUpdate(u) => spec_is_terminal(u.status.state),
        AgentEvent::EndOfStream => true,
        _ => false,
    }
}

/// Whether an event pauses the run for input: a status update to
/// input-required.
pub open spec fn event_is_interrupt(e: AgentEvent) -> bool {
    match e {
        AgentEvent::StatusUpdate(u) => u.status.state == TaskState::InputRequired,
        _ => false,
    }
}

impl AgentEvent {
    /// Whether this event ends the run.
    pub fn is_final(&self) -> (r: bool)
        ensures
            r == event_is_final(*self),
    {
        match self {
            AgentEvent::StatusUpdate(e) => e.status.state.is_terminal(),
            AgentEvent::EndOfStream => true,
            _ => false,
        }
    }

    /// Whether this event asks for input.
    pub fn is_interrupt(&self) -> (r: bool)
        ensures
            r == event_is_interrupt(*self),
    {
        match self {
            AgentEvent::StatusUpdate(e) => e.status.state == TaskState::InputRequired,
            _ => false,
        }
    }
}

/// The task after one event: a status update sets the status and adds its
/// message, if any, to the history; an artifact update adds the artifact,
/// or, when appending, adds its parts to the first artifact with its id; a
/// message goes to the history; the end of the stream changes nothing.
pub open spec fn task_after_event(t: TaskView, e: AgentEvent) -> TaskView {
    match e {
        AgentEvent::StatusUpdate(u) => {
            let h = match u.status.message {
                Some(m) => t.history.push(m.deep_view()),
                None => t.history,
            };
            TaskView { status: u.status.deep_view(), history: h, ..t }
        },
        AgentEvent::ArtifactUpdate(u) => if u.append {
            TaskView { artifacts: apply_artifact(t.artifacts, u.artifact.deep_view(), true), ..t }
        } else {
            TaskView { artifacts: t.artifacts.push(u.artifact.deep_view()), ..t }
        },
        AgentEvent::Message(m) => TaskView { history: t.history.push(m.deep_view()), ..t },
        AgentEvent::EndOfStream => t,
    }
}

/// A status update becomes the task's status and keeps the status's message
/// in the history: with a message `m`, the history afterwards is the one
/// before with `m` at its end, as a message event carrying `m` would leave
/// it; without a message the history stays. Id, context, artifacts and
/// metadata stay as they were.
pub proof fn lemma_status_update_records_message(t: TaskView, u: TaskStatusUpdateEvent)
    ensures
        task_after_event(t, AgentEvent::StatusUpdate(u)).status == u.status.deep_view(),
        match u.status.message {
            Some(m) => {
                let h = task_after_event(t, AgentEvent::StatusUpdate(u)).history;
                &&& h.len() == t.history.len() + 1
                &&& h.subrange(0, t.history.len() as int) == t.history
                &&& h[t.history.len() as int] == m.deep_view()
                &&& h == task_after_event(t, AgentEvent::Message(m)).history
            },
            None => task_after_event(t, AgentEvent::StatusUpdate(u)).history == t.history,
        },
        task_after_event(t, AgentEvent::StatusUpdate(u)).id == t.id,
        task_after_event(t, AgentEvent::StatusUpdate(u)).context_id == t.context_id,
        task_after_event(t, AgentEvent::StatusUpdate(u)).artifacts == t.artifacts,
        task_after_event(t, AgentEvent::StatusUpdate(u)).metadata == t.metadata,
{
    match u.status.message {
        Some(m) => {
            let h = task_after_event(t, AgentEvent::StatusUpdate(u)).history;
            assert(h.subrange(0, t.history.len() as int) =~= t.history);
        },
        None => {},
    }
}

/// Holds the one task that a run updates.
#[derive(Debug)]
pub struct SingleTaskManager {
    task: Task,
}

impl SingleTaskManager {
    /// The task, by value.
    pub closed spec fn task_view(self) -> TaskView {
        self.task.deep_view()
    }

    /// Manages `task`.
    pub fn new(task: Task) -> (r: Self)
        ensures
            r.task_view() == task.deep_view(),
    {
        SingleTaskManager { task }
    }

    /// Manages a new submitted task with the given ids.
    pub fn create(task_id: &str, context_id: &str) -> (r: Self)
        ensures
            r.task_view().id == task_id@,
            r.task_view().context_id == context_id@,
            r.task_view().status.state == TaskState::Submitted,
            r.task_view().history.len() == 0,
            r.task_view().artifacts.len() == 0,
    {
        Self::new(Task::new(task_id, context_id))
    }

    /// The task.
    pub fn get_task(&self) -> (r: &Task)
        ensures
            r.deep_view() == self.task_view(),
    {
        &self.task
    }

    /// The task, for changes in place.
    pub fn get_task_mut(&mut self) -> (r: &mut Task)
        ensures
            r.deep_view() == old(self).task_view(),
            final(self).task_view() == final(r).deep_view(),
    {
        &mut self.task
    }

    /// Gives up the task.
    pub fn take_task(self) -> (r: Task)
        ensures
            r.deep_view() == self.task_view(),
    {
        self.task
    }

    /// Sets the status.
    pub fn update_status(&mut self, status: TaskStatus) -> (r: Result<(), A2AError>)
        ensures
            r is Ok,
            final(self).task_view() == (TaskView { status: status.deep_view(), ..old(self).task_view() }),
    {
        self.task.status = status;
        Ok(())
    }

    /// Adds a message to the history.
    pub fn add_message(&mut self, message: Message) -> (r: Result<(), A2AError>)
        ensures
            r is Ok,
            final(self).task_view() == (TaskView {
                history: old(self).task_view().history.push(message.deep_view()),
                ..old(self).task_view()
            }),
    {
        self.task.add_message(message);
        Ok(())
    }

    /// Adds an artifact.
    pub fn add_artifact(&mut self, artifact: Artifact) -> (r: Result<(), A2AError>)
        ensures
            r is Ok,
            final(self).task_view() == (TaskView {
                artifacts: old(self).task_view().artifacts.push(artifact.deep_view()),
                ..old(self).task_view()
            }),
    {
        self.task.add_artifact(artifact);
        Ok(())
    }

    /// Adds parts to the first artifact with the given id; nothing changes
    /// when there is none.
    pub fn append_to_artifact(&mut self, artifact_id: &str, parts: &[Part]) -> (r: Result<(), A2AError>)
        ensures
            r is Ok,
            final(self).task_view() == (TaskView {
                artifacts: apply_artifact(
                    old(self).task_view().artifacts,
                    ArtifactView {
                        artifact_id: artifact_id@,
                        name: None,
                        description: None,
                        parts: parts@.map_values(|p: Part| p.deep_view()),
                        metadata: None,
                        extensions: Seq::empty(),
                    },
                    true,
                ),
                ..old(self).task_view()
            }),
    {
        let mut copied: Vec<Part> = Vec::new();
        let mut i: usize = 0;
        while i < parts.len()
            invariant
                i <= parts.len(),
                copied.deep_view() == parts@.map_values(|p: Part| p.deep_view()).subrange(0, i as int),
            decreases parts.len() - i,
        {
            let c = parts[i].clone();
            let ghost before = copied.deep_view();
            copied.push(c);
            assert(copied.deep_view() =~= before.push(parts@[i as int].deep_view()));
            assert(copied.deep_view() =~= parts@.map_values(|p: Part| p.deep_view()).subrange(0, i + 1));
            i = i + 1;
        }
        assert(parts@.map_values(|p: Part| p.deep_view()).subrange(0, parts.len() as int) =~= parts@.map_values(
            |p: Part| p.deep_view(),
        ));
        let artifact = Artifact {
            artifact_id: crate::types::id::ArtifactId::from_string(artifact_id),
            name: None,
            description: None,
            parts: copied,
            metadata: None,
            extensions: Vec::new(),
        };
        let event = TaskArtifactUpdateEvent {
            task_id: crate::types::id::TaskId::from_string(self.task.id.as_str()),
            context_id: crate::types::id::ContextId::from_string(self.task.context_id.as_str()),
            artifact,
            append: true,
            last_chunk: false,
            metadata: None,
        };
        assert(event.artifact.extensions.deep_view() =~= Seq::<Seq<char>>::empty());
        self.task.apply_artifact_update(&event);
        Ok(())
    }
}

/// Folds the events of a run into its task.
#[derive(Debug)]
pub struct ResultAggregator {
    task_manager: SingleTaskManager,
}

impl ResultAggregator {
    /// The task, by value.
    pub closed spec fn task_view(self) -> TaskView {
        self.task_manager.task_view()
    }

    /// Aggregates into `task`.
    pub fn new(task: Task) -> (r: Self)
        ensures
            r.task_view() == task.deep_view(),
    {
        ResultAggregator { task_manager: SingleTaskManager::new(task) }
    }

    /// Aggregates into a new submitted task with the given ids.
    pub fn create(task_id: &str, context_id: &str) -> (r: Self)
        ensures
            r.task_view().id == task_id@,
            r.task_view().context_id == context_id@,
            r.task_view().status.state == TaskState::Submitted,
            r.task_view().history.len() == 0,
            r.task_view().artifacts.len() == 0,
    {
        ResultAggregator { task_manager: SingleTaskManager::create(task_id, context_id) }
    }

    /// Applies one event to the task.
    pub fn process_event(&mut self, event: &AgentEvent) -> (r: Result<(), A2AError>)
        ensures
            r is Ok,
            final(self).task_view() == task_after_event(old(self).task_view(), *event),
    {
        match event {
            AgentEvent::StatusUpdate(update) => {
                let _ = self.task_manager.update_status(update.status.clone());
                match &update.status.message {
                    Some(msg) => {
                        let _ = self.task_manager.add_message(msg.clone());
                    }
                    None => {}
                }
            }
            AgentEvent::ArtifactUpdate(update) => {
                if update.append {
                    let _ = self.task_manager.append_to_artifact(
                        update.artifact.artifact_id.as_str(),
                        update.artifact.parts.as_slice(),
                    );
                    proof {
                        assert(update.artifact.parts@.map_values(|p: Part| p.deep_view()) =~= update.artifact.parts.deep_view());
                        lemma_append_ignores_fields(
                            old(self).task_view().artifacts,
                            update.artifact.deep_view(),
                        );
                    }
                } else {
                    let _ = self.task_manager.add_artifact(update.artifact.clone());
                }
            }
            AgentEvent::Message(msg) => {
                let _ = self.task_manager.add_message(msg.clone());
            }
            AgentEvent::EndOfStream => {}
        }
        Ok(())
    }

    /// Applies one event and tells whether the run stops there: always at a
    /// final event, and also at an interrupt when `stop_at_interrupt`.
    pub fn consume_event(&mut self, event: &AgentEvent, stop_at_interrupt: bool) -> (r: bool)
        ensures
            final(self).task_view() == task_after_event(old(self).task_view(), *event),
            r == (event_is_final(*event) || (stop_at_interrupt && event_is_interrupt(*event))),
    {
        let is_final = event.is_final();
        let is_interrupt = event.is_interrupt();
        let _ = self.process_event(event);
        is_final || (stop_at_interrupt && is_interrupt)
    }

    /// The task.
    pub fn task(&self) -> (r: &Task)
        ensures
            r.deep_view() == self.task_view(),
    {
        self.task_manager.get_task()
    }

    /// Gives up the task.
    pub fn into_task(self) -> (r: Task)
        ensures
            r.deep_view() == self.task_view(),
    {
        self.task_manager.take_task()
    }
}

/// Appending an artifact's parts only reads its id and parts.
proof fn lemma_append_ignores_fields(arts: Seq<ArtifactView>, a: ArtifactView)
    ensures
        apply_artifact(arts, a, true) == apply_artifact(
            arts,
            ArtifactView {
                artifact_id: a.artifact_id,
                name: None,
                description: None,
                parts: a.parts,
                metadata: None,
                extensions: Seq::empty(),
            },
            true,
        ),
{
}

} // verus!
