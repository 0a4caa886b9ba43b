//! The decisions of streaming responses: which task and context a stream
//! runs in, what a resubscription sends first, the name each event is sent
//! under, and where a stream of events ends.

use vstd::prelude::*;
use crate::error::JsonRpcError;
use crate::types::artifact::Artifact;
use crate::types::event::{StreamResponse, TaskArtifactUpdateEvent, TaskStatusUpdateEvent, event_is_terminal};
use crate::types::jsonrpc::RequestId;
use crate::types::message::{Message, Role, fresh_message};
use crate::types::part::Part;
use crate::types::task::{Task, TaskState, TaskStatus, spec_is_terminal, new_task_view};

verus! {

/// Configuration of streaming handlers.
#[derive(Debug)]
pub struct StreamingConfig {
    /// The most events buffered per task.
    pub buffer_size: usize,
    /// Whether a subscription first receives the task's current state.
    pub send_initial_state: bool,
}

impl Clone for StreamingConfig {
    fn clone(&self) -> (r: Self)
        ensures
            r.buffer_size == self.buffer_size,
            r.send_initial_state == self.send_initial_state,
    {
        StreamingConfig { buffer_size: self.buffer_size, send_initial_state: self.send_initial_state }
    }
}

impl Default for StreamingConfig {
    /// A buffer of 100 events; the initial state is sent.
    fn default() -> (r: Self)
        ensures
            r.buffer_size == 100,
            r.send_initial_state,
    {
        StreamingConfig { buffer_size: 100, send_initial_state: true }
    }
}

/// The name an event is sent under in a server-sent event stream.
pub open spec fn sse_event_name_spec(e: StreamResponse) -> Seq<char> {
    match e {
        StreamResponse::StatusUpdate(_) => "status-update"@,
        StreamResponse::ArtifactUpdate(_) => "artifact-update"@,
        StreamResponse::Task(_) => "task"@,
        StreamResponse::Message(_) => "message"@,
    }
}

/// Whether two events are of the same kind.
pub open spec fn same_event_kind(a: StreamResponse, b: StreamResponse) -> bool {
    ||| a is StatusUpdate && b is StatusUpdate
    ||| a is ArtifactUpdate && b is ArtifactUpdate
    ||| a is Task && b is Task
    ||| a is Message && b is Message
}

/// Each kind of event goes out under a name of its own: two events share an
/// SSE name exactly when they are of the same kind, and an artifact update
/// is named `artifact-update`, a status update `status-update`.
pub proof fn lemma_sse_event_names(a: StreamResponse, b: StreamResponse)
    ensures
        sse_event_name_spec(a) == sse_event_name_spec(b) <==> same_event_kind(a, b),
        a is ArtifactUpdate ==> sse_event_name_spec(a) == "artifact-update"@,
        a is StatusUpdate ==> sse_event_name_spec(a) == "status-update"@,
        a is Task ==> sse_event_name_spec(a) == "task"@,
        a is Message ==> sse_event_name_spec(a) == "message"@,
{
    reveal_strlit("status-update");
    reveal_strlit("artifact-update");
    reveal_strlit("task");
    reveal_strlit("message");
    assert("status-update"@.len() == 13);
    assert("artifact-update"@.len() == 15);
    assert("task"@.len() == 4);
    assert("message"@.len() == 7);
}

/// The name an event is sent under in a server-sent event stream.
pub fn sse_event_name(event: &StreamResponse) -> (r: &'static str)
    ensures
        r@ == sse_event_name_spec(*event),
{
    match event {
        StreamResponse::StatusUpdate(_) => "status-update",
        StreamResponse::ArtifactUpdate(_) => "artifact-update",
        StreamResponse::Task(_) => "task",
        StreamResponse::Message(_) => "message",
    }
}

/// A stream of events that ends after the first final event: a status
/// update to a terminal state.
#[derive(Debug)]
pub struct TerminatingEventStream<S> {
    inner: S,
    terminated: bool,
}

/// Whether a stream ends after this event.
pub open spec fn ends_stream(e: StreamResponse) -> bool {
    e matches StreamResponse::StatusUpdate(u) && spec_is_terminal(u.status.state)
}

/// Whether the inner stream gave an event that ends the stream.
pub open spec fn ends_on(item: Option<StreamResponse>) -> bool {
    item matches Some(e) && ends_stream(e)
}

/// One step of a terminating stream: what it yields for what the inner
/// stream gave (`item`), and whether it has ended after (`after`), given
/// whether it had ended before (`before`). Once ended it yields nothing;
/// else it yields the item, and ends when the item ends it.
pub open spec fn on_item_step(before: bool, item: Option<StreamResponse>, after: bool, out: Option<StreamResponse>) -> bool {
    if before {
        out is None && after
    } else {
        out == item && after == ends_on(item)
    }
}

impl<S> TerminatingEventStream<S> {
    /// Whether the final event has been passed on.
    pub closed spec fn is_terminated(self) -> bool {
        self.terminated
    }

    /// The stream the events come from.
    pub closed spec fn inner_stream(self) -> S {
        self.inner
    }

    /// The stream the events come from, to take the next event from.
    pub fn inner_mut(&mut self) -> (r: &mut S)
        ensures
            *r == old(self).inner_stream(),
            final(self).inner_stream() == *final(r),
            final(self).is_terminated() == old(self).is_terminated(),
    {
        &mut self.inner
    }

    /// A stream over `inner` that has not ended.
    pub fn new(inner: S) -> (r: Self)
        ensures
            r.inner_stream() == inner,
            !r.is_terminated(),
    {
        TerminatingEventStream { inner, terminated: false }
    }

    /// Whether the final event has been passed on.
    pub fn terminated(&self) -> (r: bool)
        ensures
            r == self.is_terminated(),
    {
        self.terminated
    }

    /// What the stream yields for what the inner stream gave: nothing once
    /// it has ended; else the item itself, ending the stream after a final
    /// event.
    pub fn on_item(&mut self, item: Option<StreamResponse>) -> (r: Option<StreamResponse>)
        ensures
            on_item_step(old(self).is_terminated(), item, final(self).is_terminated(), r),
            final(self).inner_stream() == old(self).inner_stream(),
    {
        if self.terminated {
            return None;
        }
        match item {
            Some(event) => {
                let is_final = match &event {
                    StreamResponse::StatusUpdate(u) => u.status.state.is_terminal(),
                    _ => false,
                };
                if is_final {
                    self.terminated = true;
                }
                Some(event)
            }
            None => None,
        }
    }
}

proof fn lemma_run_ended(
    items: Seq<Option<StreamResponse>>,
    ended: Seq<bool>,
    out: Seq<Option<StreamResponse>>,
    n: int,
)
    requires
        ended.len() == items.len() + 1,
        out.len() == items.len(),
        !ended[0],
        forall|i: int| 0 <= i < items.len() ==> on_item_step(ended[i], items[i], #[trigger] ended[i + 1], out[i]),
        0 <= n <= items.len(),
    ensures
        ended[n] <==> exists|j: int| 0 <= j < n && ends_on(#[trigger] items[j]),
    decreases n,
{
    if n > 0 {
        lemma_run_ended(items, ended, out, n - 1);
        assert(on_item_step(ended[n - 1], items[n - 1], ended[(n - 1) + 1], out[n - 1]));
        if ended[n - 1] {
            let j = choose|j: int| 0 <= j < n - 1 && ends_on(#[trigger] items[j]);
            assert(0 <= j < n && ends_on(items[j]));
        } else if ends_on(items[n - 1]) {
            assert(0 <= n - 1 < n && ends_on(items[n - 1]));
        } else {
            assert forall|j: int| 0 <= j < n implies !ends_on(#[trigger] items[j]) by {
                if j < n - 1 {
                    if ends_on(items[j]) {
                        assert(0 <= j < n - 1 && ends_on(items[j]));
                    }
                }
            }
        }
    }
}

/// A whole run of a terminating stream that had not ended: fed `items` in
/// turn by the inner stream, with `ended[i]` whether it had ended before
/// item `i` and `out[i]` what it yielded for it, it yields each item up to
/// and including the first that ends it; after that one it yields nothing
/// and stays ended, whatever the inner stream would give.
pub proof fn lemma_terminating_run(
    items: Seq<Option<StreamResponse>>,
    ended: Seq<bool>,
    out: Seq<Option<StreamResponse>>,
)
    requires
        ended.len() == items.len() + 1,
        out.len() == items.len(),
        !ended[0],
        forall|i: int| 0 <= i < items.len() ==> on_item_step(ended[i], items[i], #[trigger] ended[i + 1], out[i]),
    ensures
        forall|i: int|
            0 <= i < items.len() && (forall|j: int| 0 <= j < i ==> !ends_on(#[trigger] items[j])) ==> #[trigger] out[i]
                == items[i] && !ended[i],
        forall|i: int, k: int|
            0 <= k < i < items.len() && ends_on(#[trigger] items[k]) ==> #[trigger] out[i] is None && ended[i],
        forall|k: int| 0 <= k < items.len() && ends_on(#[trigger] items[k]) ==> ended[items.len() as int],
{
    assert forall|i: int|
        0 <= i < items.len() && (forall|j: int| 0 <= j < i ==> !ends_on(#[trigger] items[j])) implies #[trigger] out[i]
            == items[i] && !ended[i] by {
        lemma_run_ended(items, ended, out, i);
        assert(on_item_step(ended[i], items[i], ended[i + 1], out[i]));
    }
    assert forall|i: int, k: int|
        0 <= k < i < items.len() && ends_on(#[trigger] items[k]) implies #[trigger] out[i] is None && ended[i] by {
        lemma_run_ended(items, ended, out, i);
        assert(0 <= k < i && ends_on(items[k]));
        assert(on_item_step(ended[i], items[i], ended[i + 1], out[i]));
    }
    assert forall|k: int| 0 <= k < items.len() && ends_on(#[trigger] items[k]) implies ended[items.len() as int] by {
        lemma_run_ended(items, ended, out, items.len() as int);
        assert(0 <= k < items.len() && ends_on(items[k]));
    }
}

/// What an event stream starts with: the JSON-RPC id its envelopes carry,
/// and events sent before the live ones.
#[derive(Debug)]
pub struct SseStreamBuilder {
    /// The id of the request the events answer.
    pub request_id: Option<RequestId>,
    /// Events sent first, in order.
    pub initial_events: Vec<StreamResponse>,
}

impl SseStreamBuilder {
    /// No request id and no initial event.
    pub fn new() -> (r: Self)
        ensures
            r.request_id is None,
            r.initial_events@.len() == 0,
    {
        SseStreamBuilder { request_id: None, initial_events: Vec::new() }
    }

    /// Sets the request id.
    pub fn request_id(self, id: RequestId) -> (r: Self)
        ensures
            r.request_id == Some(id),
            r.initial_events == self.initial_events,
    {
        SseStreamBuilder { request_id: Some(id), ..self }
    }

    /// Adds an event to send first, after those added before.
    pub fn initial_event(self, event: StreamResponse) -> (r: Self)
        ensures
            r.request_id == self.request_id,
            r.initial_events@ == self.initial_events@.push(event),
    {
        let mut events = self.initial_events;
        events.push(event);
        SseStreamBuilder { request_id: self.request_id, initial_events: events }
    }
}

impl Default for SseStreamBuilder {
    fn default() -> (r: Self)
        ensures
            r.request_id is None,
            r.initial_events@.len() == 0,
    {
        Self::new()
    }
}

/// A status update event for a task.
pub fn status_update_event(task_id: &str, context_id: &str, status: TaskStatus) -> (r: StreamResponse)
    ensures
        r matches StreamResponse::StatusUpdate(u) && u.task_id@ == task_id@ && u.context_id@ == context_id@
            && u.status == status && u.metadata is None,
{
    StreamResponse::StatusUpdate(TaskStatusUpdateEvent::new(task_id, context_id, status))
}

/// An artifact update event for a task.
pub fn artifact_update_event(task_id: &str, context_id: &str, artifact: Artifact) -> (r: StreamResponse)
    ensures
        r matches StreamResponse::ArtifactUpdate(u) && u.task_id@ == task_id@ && u.context_id@ == context_id@
            && u.artifact == artifact && !u.append && !u.last_chunk && u.metadata is None,
{
    StreamResponse::ArtifactUpdate(TaskArtifactUpdateEvent::new(task_id, context_id, artifact))
}

/// A task event.
pub fn task_event(task: Task) -> (r: StreamResponse)
    ensures
        r == StreamResponse::Task(task),
{
    StreamResponse::Task(task)
}

/// The task a stream first sends, when the configuration asks for it: a new
/// submitted task with the stream's ids.
pub fn initial_stream_task(task_id: &str, context_id: &str, config: &StreamingConfig) -> (r: Option<Task>)
    ensures
        config.send_initial_state <==> r is Some,
        r matches Some(t) ==> t.deep_view() == new_task_view(task_id@, context_id@, t.status.deep_view())
            && t.status.state == TaskState::Submitted && t.status.message is None,
{
    if config.send_initial_state {
        Some(Task::new(task_id, context_id))
    } else {
        None
    }
}

/// The event a stream sends when the agent starts: a working status of the
/// stream's task.
pub fn working_event(task_id: &str, context_id: &str) -> (r: StreamResponse)
    ensures
        r matches StreamResponse::StatusUpdate(u) && u.task_id@ == task_id@ && u.context_id@ == context_id@
            && u.status.state == TaskState::Working && u.status.message is None && u.metadata is None,
{
    status_update_event(task_id, context_id, TaskStatus::working())
}

/// The events that end a streamed run of the agent. For the task it
/// returned: the task's status as an update, then the task itself. For an
/// error: a failed status of the stream's task, whose agent message holds
/// the error text.
pub fn execution_events(task_id: &str, context_id: &str, outcome: Result<Task, String>) -> (r: Vec<StreamResponse>)
    ensures
        match outcome {
            Ok(t) => {
                &&& r@.len() == 2
                &&& r@[0] matches StreamResponse::StatusUpdate(u) && u.task_id@ == t.id@ && u.context_id@
                    == t.context_id@ && u.status.deep_view() == t.status.deep_view() && u.metadata is None
                &&& r@[1] == StreamResponse::Task(t)
            },
            Err(m) => {
                &&& r@.len() == 1
                &&& r@[0] matches StreamResponse::StatusUpdate(u) && u.task_id@ == task_id@ && u.context_id@
                    == context_id@ && u.status.state == TaskState::Failed && u.metadata is None
                    && (u.status.message matches Some(msg) && msg.deep_view() == fresh_message(
                    msg.message_id@,
                    Role::Agent,
                    seq![Part::text_view(m@)],
                ))
            },
        },
{
    let mut out: Vec<StreamResponse> = Vec::new();
    match outcome {
        Ok(t) => {
            let status = t.status.clone();
            out.push(status_update_event(t.id.as_str(), t.context_id.as_str(), status));
            out.push(StreamResponse::Task(t));
        }
        Err(m) => {
            out.push(status_update_event(task_id, context_id, TaskStatus::failed(m.as_str())));
        }
    }
    out
}

/// The task and context a streamed message runs in: the message's own when
/// it names both; with a task id alone, that task and the stored task's
/// context (a fresh one when the task is not stored); otherwise fresh ones.
pub fn streaming_ids(message: &Message, stored: &Option<Task>) -> (r: (String, String))
    ensures
        match message.task_id {
            Some(t) => r.0@ == t@ && match message.context_id {
                Some(c) => r.1@ == c@,
                None => match *stored {
                    Some(s) => r.1@ == s.context_id@,
                    None => crate::external::is_uuid_text_of_version(r.1@, '4'),
                },
            },
            None => crate::external::is_uuid_text_of_version(r.0@, '4') && crate::external::is_uuid_text_of_version(r.1@, '4'),
        },
{
    match &message.task_id {
        Some(tid) => match &message.context_id {
            Some(cid) => (tid.as_str().to_owned(), cid.clone()),
            None => match stored {
                Some(s) => (tid.as_str().to_owned(), s.context_id.as_str().to_owned()),
                None => (tid.as_str().to_owned(), crate::external::new_uuid_v4_text()),
            },
        },
        None => (crate::external::new_uuid_v4_text(), crate::external::new_uuid_v4_text()),
    }
}

/// How a resubscription starts, given the stored task and whether the
/// task's event queue still exists.
#[derive(Debug)]
pub enum ResubscribePlan {
    /// The task has ended and has no queue: send its state and end.
    SendFinalState(Task),
    /// Follow the task's queue (made anew when missing), first sending its
    /// state when it is given.
    Follow(Option<Task>),
}

/// The plan of a resubscription to `task_id`: an unknown task is an error;
/// a task that has ended and lost its queue gets its state once; otherwise
/// the stream follows the queue, first with the task's state when the
/// configuration asks for it.
pub fn resubscribe_plan(task_id: &str, stored: Option<Task>, queue_exists: bool, config: &StreamingConfig) -> (r: Result<ResubscribePlan, JsonRpcError>)
    ensures
        match stored {
            None => r matches Err(e) && e.code == -32001 && e.message@ == "Task '"@ + task_id@ + "' not found"@,
            Some(t) => if !queue_exists && spec_is_terminal(t.status.state) {
                r == Ok::<ResubscribePlan, JsonRpcError>(ResubscribePlan::SendFinalState(t))
            } else if config.send_initial_state {
                r == Ok::<ResubscribePlan, JsonRpcError>(ResubscribePlan::Follow(Some(t)))
            } else {
                r == Ok::<ResubscribePlan, JsonRpcError>(ResubscribePlan::Follow(None))
            },
        },
{
    match stored {
        None => Err(JsonRpcError::task_not_found(task_id)),
        Some(t) => {
            if !queue_exists && t.status.state.is_terminal() {
                Ok(ResubscribePlan::SendFinalState(t))
            } else if config.send_initial_state {
                Ok(ResubscribePlan::Follow(Some(t)))
            } else {
                Ok(ResubscribePlan::Follow(None))
            }
        }
    }
}

} // verus!
