//! Tasks, task states and task statuses.

use vstd::prelude::*;
use super::Metadata;
use super::artifact::{Artifact, ArtifactView};
use super::event::TaskArtifactUpdateEvent;
use super::id::{ArtifactId, ContextId, TaskId, clone_vec};
use super::message::{Message, MessageView};
use super::part::Part;

verus! {

/// Lifecycle states of a task.
#[derive(Debug, Clone, Copy, PartialEq, Eq, Structural, Hash)]
pub enum TaskState {
    Unspecified,
    Submitted,
    Working,
    Completed,
    Failed,
    Canceled,
    InputRequired,
    Rejected,
    AuthRequired,
}

/// Terminal states: no further change to the task is permitted.
pub open spec fn spec_is_terminal(s: TaskState) -> bool {
    s == TaskState::Completed || s == TaskState::Failed || s == TaskState::Canceled
        || s == TaskState::Rejected
}

/// Interrupted states: the task is paused, awaiting action.
pub open spec fn spec_is_interrupted(s: TaskState) -> bool {
    s == TaskState::InputRequired || s == TaskState::AuthRequired
}

/// The protocol enum text of a state.
pub open spec fn state_name(s: TaskState) -> Seq<char> {
    match s {
        TaskState::Unspecified => "TASK_STATE_UNSPECIFIED"@,
        TaskState::Submitted => "TASK_STATE_SUBMITTED"@,
        TaskState::Working => "TASK_STATE_WORKING"@,
        TaskState::Completed => "TASK_STATE_COMPLETED"@,
        TaskState::Failed => "TASK_STATE_FAILED"@,
        TaskState::Canceled => "TASK_STATE_CANCELED"@,
        TaskState::InputRequired => "TASK_STATE_INPUT_REQUIRED"@,
        TaskState::Rejected => "TASK_STATE_REJECTED"@,
        TaskState::AuthRequired => "TASK_STATE_AUTH_REQUIRED"@,
    }
}

/// The state that a protocol enum text names; any other text names
/// `Unspecified`.
pub open spec fn state_from_name(s: Seq<char>) -> TaskState {
    if s == "TASK_STATE_SUBMITTED"@ {
        TaskState::Submitted
    } else if s == "TASK_STATE_WORKING"@ {
        TaskState::Working
    } else if s == "TASK_STATE_COMPLETED"@ {
        TaskState::Completed
    } else if s == "TASK_STATE_FAILED"@ {
        TaskState::Failed
    } else if s == "TASK_STATE_CANCELED"@ {
        TaskState::Canceled
    } else if s == "TASK_STATE_INPUT_REQUIRED"@ {
        TaskState::InputRequired
    } else if s == "TASK_STATE_REJECTED"@ {
        TaskState::Rejected
    } else if s == "TASK_STATE_AUTH_REQUIRED"@ {
        TaskState::AuthRequired
    } else {
        TaskState::Unspecified
    }
}

impl TaskState {
    /// Returns `true` for terminal states.
    pub fn is_terminal(self) -> (r: bool)
        ensures
            r == spec_is_terminal(self),
    {
        match self {
            TaskState::Completed | TaskState::Failed | TaskState::Canceled | TaskState::Rejected => true,
            _ => false,
        }
    }

    /// Returns `true` for interrupted states.
    pub fn is_interrupted(self) -> (r: bool)
        ensures
            r == spec_is_interrupted(self),
    {
        match self {
            TaskState::InputRequired | TaskState::AuthRequired => true,
            _ => false,
        }
    }

    /// Parses a state from its protocol enum text; other text gives
    /// `Unspecified`.
    pub fn from_state_str(s: &str) -> (r: Self)
        ensures
            r == state_from_name(s@),
    {
        if crate::text::str_eq(s, "TASK_STATE_SUBMITTED") {
            TaskState::Submitted
        } else if crate::text::str_eq(s, "TASK_STATE_WORKING") {
            TaskState::Working
        } else if crate::text::str_eq(s, "TASK_STATE_COMPLETED") {
            TaskState::Completed
        } else if crate::text::str_eq(s, "TASK_STATE_FAILED") {
            TaskState::Failed
        } else if crate::text::str_eq(s, "TASK_STATE_CANCELED") {
            TaskState::Canceled
        } else if crate::text::str_eq(s, "TASK_STATE_INPUT_REQUIRED") {
            TaskState::InputRequired
        } else if crate::text::str_eq(s, "TASK_STATE_REJECTED") {
            TaskState::Rejected
        } else if crate::text::str_eq(s, "TASK_STATE_AUTH_REQUIRED") {
            TaskState::AuthRequired
        } else {
            TaskState::Unspecified
        }
    }

    /// The protocol enum text of this state.
    pub fn as_str(self) -> (r: &'static str)
        ensures
            r@ == state_name(self),
    {
        match self {
            TaskState::Unspecified => "TASK_STATE_UNSPECIFIED",
            TaskState::Submitted => "TASK_STATE_SUBMITTED",
            TaskState::Working => "TASK_STATE_WORKING",
            TaskState::Completed => "TASK_STATE_COMPLETED",
            TaskState::Failed => "TASK_STATE_FAILED",
            TaskState::Canceled => "TASK_STATE_CANCELED",
            TaskState::InputRequired => "TASK_STATE_INPUT_REQUIRED",
            TaskState::Rejected => "TASK_STATE_REJECTED",
            TaskState::AuthRequired => "TASK_STATE_AUTH_REQUIRED",
        }
    }
}

/// Parsing the protocol text of a state gives the state back.
pub proof fn lemma_state_name_round_trip(s: TaskState)
    ensures
        state_from_name(state_name(s)) == s,
{
    reveal_strlit("TASK_STATE_UNSPECIFIED");
    reveal_strlit("TASK_STATE_SUBMITTED");
    reveal_strlit("TASK_STATE_WORKING");
    reveal_strlit("TASK_STATE_COMPLETED");
    reveal_strlit("TASK_STATE_FAILED");
    reveal_strlit("TASK_STATE_CANCELED");
    reveal_strlit("TASK_STATE_INPUT_REQUIRED");
    reveal_strlit("TASK_STATE_REJECTED");
    reveal_strlit("TASK_STATE_AUTH_REQUIRED");
    assert("TASK_STATE_UNSPECIFIED"@.len() == 22 && "TASK_STATE_UNSPECIFIED"@[11] == 'U');
    assert("TASK_STATE_SUBMITTED"@.len() == 20 && "TASK_STATE_SUBMITTED"@[11] == 'S');
    assert("TASK_STATE_WORKING"@.len() == 18 && "TASK_STATE_WORKING"@[11] == 'W');
    assert("TASK_STATE_COMPLETED"@.len() == 20 && "TASK_STATE_COMPLETED"@[11] == 'C');
    assert("TASK_STATE_FAILED"@.len() == 17 && "TASK_STATE_FAILED"@[11] == 'F');
    assert("TASK_STATE_CANCELED"@.len() == 19 && "TASK_STATE_CANCELED"@[11] == 'C');
    assert("TASK_STATE_INPUT_REQUIRED"@.len() == 25 && "TASK_STATE_INPUT_REQUIRED"@[11] == 'I');
    assert("TASK_STATE_REJECTED"@.len() == 19 && "TASK_STATE_REJECTED"@[11] == 'R');
    assert("TASK_STATE_AUTH_REQUIRED"@.len() == 24 && "TASK_STATE_AUTH_REQUIRED"@[11] == 'A');
}

/// No state is both terminal and interrupted.
pub proof fn lemma_terminal_not_interrupted(s: TaskState)
    ensures
        !(spec_is_terminal(s) && spec_is_interrupted(s)),
{
}

/// The status of a task at a point in time.
#[derive(Debug)]
pub struct TaskStatus {
    pub state: TaskState,
    pub message: Option<Message>,
    pub timestamp: Option<String>,
}

/// A task status, by value.
pub struct TaskStatusView {
    pub state: TaskState,
    pub message: Option<MessageView>,
    pub timestamp: Option<Seq<char>>,
}

impl DeepView for TaskStatus {
    type V = TaskStatusView;

    open spec fn deep_view(&self) -> TaskStatusView {
        TaskStatusView {
            state: self.state,
            message: self.message.deep_view(),
            timestamp: self.timestamp.deep_view(),
        }
    }
}

impl Clone for TaskStatus {
    fn clone(&self) -> (r: Self)
        ensures
            r.deep_view() == self.deep_view(),
    {
        TaskStatus {
            state: self.state,
            message: match &self.message {
                Some(m) => Some(m.clone()),
                None => None,
            },
            timestamp: super::clone_opt_string(&self.timestamp),
        }
    }
}

impl TaskStatus {
    /// A status with the given state, no message and the current time.
    pub fn new(state: TaskState) -> (r: Self)
        ensures
            r.state == state,
            r.message is None,
            r.timestamp matches Some(ts) && crate::external::is_utc_rfc3339_text(ts@),
    {
        TaskStatus { state, message: None, timestamp: Some(crate::external::now_rfc3339()) }
    }

    /// A status with the given state and message and the current time.
    pub fn with_message(state: TaskState, message: Message) -> (r: Self)
        ensures
            r.state == state,
            r.message.deep_view() == Some(message.deep_view()),
            r.timestamp matches Some(ts) && crate::external::is_utc_rfc3339_text(ts@),
    {
        TaskStatus {
            state,
            message: Some(message),
            timestamp: Some(crate::external::now_rfc3339()),
        }
    }

    /// A submitted status.
    pub fn submitted() -> (r: Self)
        ensures
            r.state == TaskState::Submitted,
            r.message is None,
            r.timestamp matches Some(ts) && crate::external::is_utc_rfc3339_text(ts@),
    {
        Self::new(TaskState::Submitted)
    }

    /// A working status.
    pub fn working() -> (r: Self)
        ensures
            r.state == TaskState::Working,
            r.message is None,
            r.timestamp matches Some(ts) && crate::external::is_utc_rfc3339_text(ts@),
    {
        Self::new(TaskState::Working)
    }

    /// A completed status.
    pub fn completed() -> (r: Self)
        ensures
            r.state == TaskState::Completed,
            r.message is None,
            r.timestamp matches Some(ts) && crate::external::is_utc_rfc3339_text(ts@),
    {
        Self::new(TaskState::Completed)
    }

    /// A failed status whose agent message holds the error text.
    pub fn failed(error: &str) -> (r: Self)
        ensures
            r.state == TaskState::Failed,
            r.message is Some,
            r.message.unwrap().deep_view() == super::message::fresh_message(
                r.message.unwrap().message_id@,
                super::message::Role::Agent,
                seq![Part::text_view(error@)],
            ),
            r.timestamp matches Some(ts) && crate::external::is_utc_rfc3339_text(ts@),
    {
        let msg = Message::agent_text(error);
        Self::with_message(TaskState::Failed, msg)
    }
}

/// A stateful operation or conversation between a client and an agent.
#[derive(Debug)]
pub struct Task {
    pub id: TaskId,
    pub context_id: ContextId,
    pub status: TaskStatus,
    pub artifacts: Vec<Artifact>,
    pub history: Vec<Message>,
    pub metadata: Option<Metadata>,
}

/// A task, by value.
pub struct TaskView {
    pub id: Seq<char>,
    pub context_id: Seq<char>,
    pub status: TaskStatusView,
    pub artifacts: Seq<ArtifactView>,
    pub history: Seq<MessageView>,
    pub metadata: Option<Seq<(Seq<char>, serde_json::Value)>>,
}

impl DeepView for Task {
    type V = TaskView;

    open spec fn deep_view(&self) -> TaskView {
        TaskView {
            id: self.id@,
            context_id: self.context_id@,
            status: self.status.deep_view(),
            artifacts: self.artifacts.deep_view(),
            history: self.history.deep_view(),
            metadata: self.metadata.deep_view(),
        }
    }
}

impl Clone for Task {
    fn clone(&self) -> (r: Self)
        ensures
            r.deep_view() == self.deep_view(),
    {
        Task {
            id: self.id.clone(),
            context_id: self.context_id.clone(),
            status: self.status.clone(),
            artifacts: clone_vec(&self.artifacts),
            history: clone_vec(&self.history),
            metadata: super::clone_opt_metadata(&self.metadata),
        }
    }
}

/// The last `n` elements of `s` (all of `s` when it is shorter).
pub open spec fn keep_last<A>(s: Seq<A>, n: nat) -> Seq<A> {
    if s.len() > n { s.subrange(s.len() - n, s.len() as int) } else { s }
}

/// `i` is the first position of an artifact with id `id`.
pub open spec fn is_first_artifact(arts: Seq<ArtifactView>, id: Seq<char>, i: int) -> bool {
    &&& 0 <= i < arts.len()
    &&& arts[i].artifact_id == id
    &&& forall|j: int| 0 <= j < i ==> arts[j].artifact_id != id
}

/// The first position of an artifact with id `id`, if any.
pub open spec fn first_artifact(arts: Seq<ArtifactView>, id: Seq<char>) -> Option<int> {
    if exists|i: int| is_first_artifact(arts, id, i) {
        Some(choose|i: int| is_first_artifact(arts, id, i))
    } else {
        None
    }
}

/// The artifacts after an artifact update: without `append`, the artifact
/// replaces the first one with its id or is added at the end; with `append`,
/// its parts are added to the first one with its id, and nothing changes
/// when there is none.
pub open spec fn apply_artifact(arts: Seq<ArtifactView>, a: ArtifactView, append: bool) -> Seq<ArtifactView> {
    match first_artifact(arts, a.artifact_id) {
        Some(i) => if append {
            arts.update(i, ArtifactView { parts: arts[i].parts + a.parts, ..arts[i] })
        } else {
            arts.update(i, a)
        },
        None => if append { arts } else { arts.push(a) },
    }
}

proof fn lemma_first_artifact_unique(arts: Seq<ArtifactView>, id: Seq<char>, i: int)
    requires
        is_first_artifact(arts, id, i),
    ensures
        first_artifact(arts, id) == Some(i),
{
    let k = choose|k: int| is_first_artifact(arts, id, k);
    assert(is_first_artifact(arts, id, k));
    if k < i {
        assert(arts[k].artifact_id != id);
    }
    if i < k {
        assert(arts[i].artifact_id != id);
    }
}

/// Position of the first artifact with the given id.
fn find_artifact(arts: &Vec<Artifact>, id: &ArtifactId) -> (r: Option<usize>)
    ensures
        match r {
            Some(i) => first_artifact(arts.deep_view(), id@) == Some(i as int),
            None => first_artifact(arts.deep_view(), id@) is None,
        },
{
    let ghost a = arts.deep_view();
    let mut i: usize = 0;
    while i < arts.len()
        invariant
            i <= arts.len(),
            a == arts.deep_view(),
            forall|j: int| 0 <= j < i ==> a[j].artifact_id != id@,
        decreases arts.len() - i,
    {
        if crate::text::str_eq(arts[i].artifact_id.as_str(), id.as_str()) {
            proof { lemma_first_artifact_unique(a, id@, i as int); }
            return Some(i);
        }
        i = i + 1;
    }
    assert forall|k: int| !is_first_artifact(a, id@, k) by {
        if 0 <= k < a.len() {
            assert(a[k].artifact_id != id@);
        }
    }
    None
}

/// Appends a copy of each part of `extra` to `parts`.
fn extend_parts(parts: &mut Vec<Part>, extra: &Vec<Part>)
    ensures
        final(parts).deep_view() == old(parts).deep_view() + extra.deep_view(),
{
    let ghost start = parts.deep_view();
    let mut i: usize = 0;
    while i < extra.len()
        invariant
            i <= extra.len(),
            parts.deep_view() == start + extra.deep_view().subrange(0, i as int),
        decreases extra.len() - i,
    {
        let c = extra[i].clone();
        let ghost before = parts.deep_view();
        parts.push(c);
        proof {
            assert(parts.deep_view() =~= before.push(extra.deep_view()[i as int]));
            assert(extra.deep_view().subrange(0, i + 1) =~= extra.deep_view().subrange(0, i as int).push(extra.deep_view()[i as int]));
            assert(parts.deep_view() =~= start + extra.deep_view().subrange(0, i + 1));
        }
        i = i + 1;
    }
    assert(extra.deep_view().subrange(0, extra.len() as int) =~= extra.deep_view());
}

/// A task with the given ids, a submitted status and nothing else.
pub open spec fn new_task_view(id: Seq<char>, context_id: Seq<char>, status: TaskStatusView) -> TaskView {
    TaskView {
        id,
        context_id,
        status,
        artifacts: Seq::empty(),
        history: Seq::empty(),
        metadata: None,
    }
}

impl Task {
    /// A new task with the given ids and a submitted status.
    pub fn new(id: &str, context_id: &str) -> (r: Self)
        ensures
            r.deep_view() == new_task_view(id@, context_id@, r.status.deep_view()),
            r.status.state == TaskState::Submitted,
            r.status.message is None,
            r.status.timestamp matches Some(ts) && crate::external::is_utc_rfc3339_text(ts@),
    {
        let r = Task {
            id: TaskId::from_string(id),
            context_id: ContextId::from_string(context_id),
            status: TaskStatus::submitted(),
            artifacts: Vec::new(),
            history: Vec::new(),
            metadata: None,
        };
        assert(r.artifacts.deep_view() =~= Seq::<ArtifactView>::empty());
        assert(r.history.deep_view() =~= Seq::<MessageView>::empty());
        r
    }

    /// A new task with random ids and a submitted status.
    pub fn create() -> (r: Self)
        ensures
            r.deep_view() == new_task_view(r.id@, r.context_id@, r.status.deep_view()),
            crate::external::is_uuid_text_of_version(r.id@, '7'),
            crate::external::is_uuid_text_of_version(r.context_id@, '7'),
            r.status.state == TaskState::Submitted,
            r.status.message is None,
    {
        let id = TaskId::random();
        let cid = ContextId::random();
        Self::new(id.as_str(), cid.as_str())
    }

    /// A submitted task whose history holds the initial message.
    pub fn new_submitted(id: &str, context_id: &str, initial_message: Message) -> (r: Self)
        ensures
            r.id@ == id@,
            r.context_id@ == context_id@,
            r.status.state == TaskState::Submitted,
            r.status.message is None,
            r.history.deep_view() == seq![initial_message.deep_view()],
            r.artifacts@.len() == 0,
            r.metadata is None,
    {
        let mut history: Vec<Message> = Vec::new();
        history.push(initial_message);
        assert(history.deep_view() =~= seq![initial_message.deep_view()]);
        Task {
            id: TaskId::from_string(id),
            context_id: ContextId::from_string(context_id),
            status: TaskStatus::new(TaskState::Submitted),
            history,
            artifacts: Vec::new(),
            metadata: None,
        }
    }

    /// Whether the task is in a terminal state.
    pub fn is_terminal(&self) -> (r: bool)
        ensures
            r == spec_is_terminal(self.status.state),
    {
        self.status.state.is_terminal()
    }

    /// The current state.
    pub fn state(&self) -> (r: TaskState)
        ensures
            r == self.status.state,
    {
        self.status.state
    }

    /// Keeps only the last `n` messages of the history.
    pub fn truncate_history(&mut self, n: usize)
        ensures
            final(self).deep_view() == (TaskView {
                history: keep_last(old(self).history.deep_view(), n as nat),
                ..old(self).deep_view()
            }),
    {
        if self.history.len() > n {
            let start = self.history.len() - n;
            let tail = self.history.split_off(start);
            self.history = tail;
            proof {
                assert(self.history.deep_view() =~= keep_last(old(self).history.deep_view(), n as nat));
            }
        }
    }

    /// Applies an artifact update event: see `apply_artifact`.
    pub fn apply_artifact_update(&mut self, event: &TaskArtifactUpdateEvent)
        ensures
            final(self).deep_view() == (TaskView {
                artifacts: apply_artifact(
                    old(self).artifacts.deep_view(),
                    event.artifact.deep_view(),
                    event.append,
                ),
                ..old(self).deep_view()
            }),
    {
        let ghost arts = self.artifacts.deep_view();
        let pos = find_artifact(&self.artifacts, &event.artifact.artifact_id);
        if !event.append {
            match pos {
                Some(i) => {
                    self.artifacts.set(i, event.artifact.clone());
                    assert(self.artifacts.deep_view() =~= arts.update(i as int, event.artifact.deep_view()));
                }
                None => {
                    self.artifacts.push(event.artifact.clone());
                    assert(self.artifacts.deep_view() =~= arts.push(event.artifact.deep_view()));
                }
            }
        } else {
            match pos {
                Some(i) => {
                    let mut a = self.artifacts[i].clone();
                    extend_parts(&mut a.parts, &event.artifact.parts);
                    self.artifacts.set(i, a);
                    assert(self.artifacts.deep_view() =~= arts.update(
                        i as int,
                        ArtifactView { parts: arts[i as int].parts + event.artifact.parts.deep_view(), ..arts[i as int] },
                    ));
                }
                None => {}
            }
        }
    }

    /// Adds a message at the end of the history.
    pub fn add_message(&mut self, message: Message)
        ensures
            final(self).deep_view() == (TaskView {
                history: old(self).history.deep_view().push(message.deep_view()),
                ..old(self).deep_view()
            }),
    {
        let ghost m = message.deep_view();
        self.history.push(message);
        assert(self.history.deep_view() =~= old(self).history.deep_view().push(m));
    }

    /// Adds an artifact at the end of the artifacts.
    pub fn add_artifact(&mut self, artifact: Artifact)
        ensures
            final(self).deep_view() == (TaskView {
                artifacts: old(self).artifacts.deep_view().push(artifact.deep_view()),
                ..old(self).deep_view()
            }),
    {
        let ghost a = artifact.deep_view();
        self.artifacts.push(artifact);
        assert(self.artifacts.deep_view() =~= old(self).artifacts.deep_view().push(a));
    }
}

} // verus!
