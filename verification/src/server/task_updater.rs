//! Changes an agent makes to the task it works on: state changes, messages,
//! artifacts and metadata. After each change the task is saved and sent to
//! subscribers by the code that drives the updater.

use vstd::prelude::*;
use crate::types::Metadata;
use crate::types::artifact::{Artifact, ArtifactView};
use crate::types::message::{Message, MessageView, Role, fresh_message};
use crate::types::part::Part;
use crate::types::task::{Task, TaskState, TaskStatusView, TaskView};

verus! {

/// The task after its state becomes `s`; the rest of the status stays.
pub open spec fn with_state(t: TaskView, s: TaskState) -> TaskView {
    TaskView { status: TaskStatusView { state: s, ..t.status }, ..t }
}

/// The task after `m` becomes its status message and joins its history.
pub open spec fn with_message(t: TaskView, m: MessageView) -> TaskView {
    TaskView { status: TaskStatusView { message: Some(m), ..t.status }, history: t.history.push(m), ..t }
}

/// Keeps the task an agent works on and applies the agent's changes to it.
#[derive(Debug)]
pub struct TaskUpdater {
    task: Task,
}

impl TaskUpdater {
    /// The task, by value.
    pub closed spec fn task_view(self) -> TaskView {
        self.task.deep_view()
    }

    /// The task's metadata as a map, if it has metadata.
    pub closed spec fn metadata_map(self) -> Option<Map<Seq<char>, serde_json::Value>> {
        match self.task.metadata {
            Some(m) => Some(m.as_map()),
            None => None,
        }
    }

    /// An updater for `task`.
    pub fn new(task: Task) -> (r: Self)
        ensures
            r.task_view() == task.deep_view(),
    {
        TaskUpdater { task }
    }

    /// A copy of the task.
    pub fn task(&self) -> (r: Task)
        ensures
            r.deep_view() == self.task_view(),
    {
        self.task.clone()
    }

    /// The task's id.
    pub fn task_id(&self) -> (r: String)
        ensures
            r@ == self.task_view().id,
    {
        self.task.id.as_str().to_owned()
    }

    /// Sets the state, keeping the rest of the status.
    pub fn set_state(&mut self, state: TaskState)
        ensures
            final(self).task_view() == with_state(old(self).task_view(), state),
    {
        self.task.status.state = state;
    }

    /// Sets the state, makes `message` the status message and adds it to the
    /// history.
    pub fn set_state_with_message(&mut self, state: TaskState, message: Message)
        ensures
            final(self).task_view() == with_message(with_state(old(self).task_view(), state), message.deep_view()),
    {
        self.task.status.state = state;
        self.add_message(message);
    }

    /// Sets the state to working.
    pub fn start_working(&mut self)
        ensures
            final(self).task_view() == with_state(old(self).task_view(), TaskState::Working),
    {
        self.set_state(TaskState::Working)
    }

    /// Sets the state to completed.
    pub fn complete(&mut self)
        ensures
            final(self).task_view() == with_state(old(self).task_view(), TaskState::Completed),
    {
        self.set_state(TaskState::Completed)
    }

    /// Sets the state to completed with a final message.
    pub fn complete_with_message(&mut self, message: Message)
        ensures
            final(self).task_view() == with_message(
                with_state(old(self).task_view(), TaskState::Completed),
                message.deep_view(),
            ),
    {
        self.set_state_with_message(TaskState::Completed, message)
    }

    /// Sets the state to failed, with an agent message holding the error.
    pub fn fail(&mut self, error_message: &str)
        ensures
            exists|id: Seq<char>| final(self).task_view() == with_message(
                with_state(old(self).task_view(), TaskState::Failed),
                fresh_message(id, Role::Agent, seq![Part::text_view(error_message@)]),
            ),
    {
        let m = Message::agent_text(error_message);
        let ghost id = m.message_id@;
        self.set_state_with_message(TaskState::Failed, m);
        assert(final(self).task_view() == with_message(
            with_state(old(self).task_view(), TaskState::Failed),
            fresh_message(id, Role::Agent, seq![Part::text_view(error_message@)]),
        ));
    }

    /// Sets the state to canceled.
    pub fn cancel(&mut self)
        ensures
            final(self).task_view() == with_state(old(self).task_view(), TaskState::Canceled),
    {
        self.set_state(TaskState::Canceled)
    }

    /// Asks for input: the state becomes input-required, with an agent
    /// message holding the prompt.
    pub fn require_input(&mut self, prompt: &str)
        ensures
            exists|id: Seq<char>| final(self).task_view() == with_message(
                with_state(old(self).task_view(), TaskState::InputRequired),
                fresh_message(id, Role::Agent, seq![Part::text_view(prompt@)]),
            ),
    {
        let m = Message::agent_text(prompt);
        let ghost id = m.message_id@;
        self.set_state_with_message(TaskState::InputRequired, m);
        assert(final(self).task_view() == with_message(
            with_state(old(self).task_view(), TaskState::InputRequired),
            fresh_message(id, Role::Agent, seq![Part::text_view(prompt@)]),
        ));
    }

    /// Makes `message` the status message and adds it to the history.
    pub fn add_message(&mut self, message: Message)
        ensures
            final(self).task_view() == with_message(old(self).task_view(), message.deep_view()),
    {
        let copy = message.clone();
        self.task.status.message = Some(copy);
        self.task.add_message(message);
    }

    /// Adds an agent text message.
    pub fn add_agent_message(&mut self, text: &str)
        ensures
            exists|id: Seq<char>| final(self).task_view() == with_message(
                old(self).task_view(),
                fresh_message(id, Role::Agent, seq![Part::text_view(text@)]),
            ),
    {
        let m = Message::agent_text(text);
        let ghost id = m.message_id@;
        self.add_message(m);
        assert(final(self).task_view() == with_message(
            old(self).task_view(),
            fresh_message(id, Role::Agent, seq![Part::text_view(text@)]),
        ));
    }

    /// Adds an artifact.
    pub fn add_artifact(&mut self, artifact: Artifact)
        ensures
            final(self).task_view() == (TaskView {
                artifacts: old(self).task_view().artifacts.push(artifact.deep_view()),
                ..old(self).task_view()
            }),
    {
        self.task.add_artifact(artifact);
    }

    /// Adds an artifact with a fresh id, the given name, and one text part.
    pub fn add_text_artifact(&mut self, name: &str, text: &str)
        ensures
            exists|id: Seq<char>| crate::external::is_uuid_text_of_version(id, '4') && final(self).task_view() == (TaskView {
                artifacts: old(self).task_view().artifacts.push(ArtifactView {
                    artifact_id: id,
                    name: Some(name@),
                    description: None,
                    parts: seq![Part::text_view(text@)],
                    metadata: None,
                    extensions: Seq::empty(),
                }),
                ..old(self).task_view()
            }),
    {
        let id = crate::external::new_uuid_v4_text();
        let mut parts: Vec<Part> = Vec::new();
        parts.push(Part::text(text));
        let artifact = Artifact {
            artifact_id: crate::types::id::ArtifactId::from_string(id.as_str()),
            name: Some(name.to_owned()),
            description: None,
            parts,
            metadata: None,
            extensions: Vec::new(),
        };
        let ghost av = artifact.deep_view();
        assert(av.parts =~= seq![Part::text_view(text@)]);
        assert(av.extensions =~= Seq::<Seq<char>>::empty());
        self.add_artifact(artifact);
    }

    /// Sets a metadata value of the task.
    pub fn set_metadata(&mut self, key: &str, value: serde_json::Value)
        ensures
            final(self).metadata_map() == Some(match old(self).metadata_map() {
                Some(o) => o,
                None => Map::empty(),
            }.insert(key@, value)),
            final(self).task_view().id == old(self).task_view().id,
            final(self).task_view().status == old(self).task_view().status,
            final(self).task_view().history == old(self).task_view().history,
            final(self).task_view().artifacts == old(self).task_view().artifacts,
    {
        let mut m = match self.task.metadata.take() {
            Some(m) => m,
            None => Metadata::new(),
        };
        let _ = m.insert(key.to_owned(), value);
        self.task.metadata = Some(m);
    }
}

} // verus!
