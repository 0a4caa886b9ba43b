//! The decisions of the default request handler: validating a message and
//! resolving its task and context, what each event of a non-streaming send
//! leads to, cancellation and subscription checks, history trimming, and
//! the push configuration replies. The event loop, the queues and the
//! stores that the handler drives are run around these decisions.

use vstd::prelude::*;
use crate::error::A2AError;
use crate::server::middleware::{CallUser, User};
use crate::types::Metadata;
use crate::types::event::{StreamResponse, SendMessageResponse, TaskStatusUpdateEvent, event_task_id, event_is_terminal};
use crate::types::message::{Message, MessageView};
use crate::types::push::{PushNotificationConfig, PushConfigView, TaskPushNotificationConfig, TaskPushConfigView};
use crate::types::request::{SendMessageConfiguration, SendMessageRequest};
use crate::types::response::ListTaskPushNotificationConfigsResponse;
use crate::types::task::{Task, TaskState, TaskStatus, TaskView, keep_last, spec_is_terminal, new_task_view};

verus! {

/// What the agent executor gets for one request: the task and context it
/// works in, the triggering message, the stored task it continues, and
/// request data.
#[derive(Debug)]
pub struct RequestContext {
    /// The task being processed (or newly generated).
    pub task_id: String,
    /// The context of the task.
    pub context_id: String,
    /// The message that triggered this execution; none for a cancellation.
    pub message: Option<Message>,
    /// The stored task the message continues, if any.
    pub stored_task: Option<Task>,
    /// Tasks that the message references, when loaded.
    pub related_tasks: Vec<Task>,
    /// Metadata of the request.
    pub metadata: Metadata,
    /// The user of the request.
    pub user: CallUser,
    /// The tenant of the request, if any.
    pub tenant: Option<String>,
    /// Service parameters (such as protocol version and extensions) from the
    /// request headers.
    pub service_params: Vec<(String, Vec<String>)>,
}

impl RequestContext {
    /// A context for the given task and context ids and nothing else.
    pub fn new(task_id: &str, context_id: &str) -> (r: Self)
        ensures
            r.task_id@ == task_id@,
            r.context_id@ == context_id@,
            r.message is None,
            r.stored_task is None,
            r.related_tasks@.len() == 0,
            r.metadata.as_map() == Map::<Seq<char>, serde_json::Value>::empty(),
            r.user.user_name() == Seq::<char>::empty(),
            !r.user.is_authenticated(),
            r.tenant is None,
            r.service_params@.len() == 0,
    {
        RequestContext {
            task_id: task_id.to_owned(),
            context_id: context_id.to_owned(),
            message: None,
            stored_task: None,
            related_tasks: Vec::new(),
            metadata: Metadata::new(),
            user: CallUser::unauthenticated(),
            tenant: None,
            service_params: Vec::new(),
        }
    }

    /// A context with random task and context ids.
    pub fn create() -> (r: Self)
        ensures
            crate::external::is_uuid_text_of_version(r.task_id@, '4'),
            crate::external::is_uuid_text_of_version(r.context_id@, '4'),
            r.message is None,
            r.stored_task is None,
    {
        let t = crate::external::new_uuid_v4_text();
        let c = crate::external::new_uuid_v4_text();
        Self::new(t.as_str(), c.as_str())
    }
}

/// The history a task keeps when a reply is limited to `history_length`
/// messages: all without a limit, none for a limit of 0 or less, else the
/// most recent ones.
pub open spec fn limited_history(h: Seq<MessageView>, history_length: Option<i32>) -> Seq<MessageView> {
    match history_length {
        None => h,
        Some(n) => if n <= 0 { Seq::empty() } else { keep_last(h, n as nat) },
    }
}

/// A limited history is the most recent part of the history, at most as
/// long as the limit.
pub proof fn lemma_limited_history_is_recent_part(h: Seq<MessageView>, n: i32)
    ensures
        ({
            let r = limited_history(h, Some(n));
            &&& r.len() <= h.len()
            &&& r.len() <= (if n <= 0 { 0 } else { n as int })
            &&& (n > 0 ==> r.len() == (if h.len() < n { h.len() as int } else { n as int }))
            &&& r == h.subrange(h.len() - r.len(), h.len() as int)
        }),
{
    let r = limited_history(h, Some(n));
    if n <= 0 {
        assert(h.subrange(h.len() as int, h.len() as int) =~= Seq::<MessageView>::empty());
    } else if h.len() <= n {
        assert(h.subrange(0, h.len() as int) =~= h);
    }
}

/// Limits the history of a task to `history_length` messages.
pub fn apply_history_length(task: &mut Task, history_length: Option<i32>)
    ensures
        final(task).deep_view() == (TaskView {
            history: limited_history(old(task).history.deep_view(), history_length),
            ..old(task).deep_view()
        }),
{
    match history_length {
        None => {}
        Some(len) => {
            if len <= 0 {
                task.history = Vec::new();
                assert(task.history.deep_view() =~= Seq::<MessageView>::empty());
            } else {
                task.truncate_history(len as usize);
            }
        }
    }
}

/// The name a task state is printed with.
pub open spec fn state_debug_name(s: TaskState) -> Seq<char> {
    match s {
        TaskState::Unspecified => "Unspecified"@,
        TaskState::Submitted => "Submitted"@,
        TaskState::Working => "Working"@,
        TaskState::Completed => "Completed"@,
        TaskState::Failed => "Failed"@,
        TaskState::Canceled => "Canceled"@,
        TaskState::InputRequired => "InputRequired"@,
        TaskState::Rejected => "Rejected"@,
        TaskState::AuthRequired => "AuthRequired"@,
    }
}

fn state_debug_text(s: TaskState) -> (r: &'static str)
    ensures
        r@ == state_debug_name(s),
{
    match s {
        TaskState::Unspecified => "Unspecified",
        TaskState::Submitted => "Submitted",
        TaskState::Working => "Working",
        TaskState::Completed => "Completed",
        TaskState::Failed => "Failed",
        TaskState::Canceled => "Canceled",
        TaskState::InputRequired => "InputRequired",
        TaskState::Rejected => "Rejected",
        TaskState::AuthRequired => "AuthRequired",
    }
}

/// The message of the error for a task that is already in a terminal state.
pub open spec fn terminal_state_message(task_id: Seq<char>, s: TaskState) -> Seq<char> {
    "Task "@ + task_id + " is in terminal state: "@ + state_debug_name(s)
}

/// The invalid-params error for a task that is already in a terminal state.
pub fn terminal_state_error(task_id: &str, s: TaskState) -> (r: A2AError)
    ensures
        r matches A2AError::InvalidParams(m) && m@ == terminal_state_message(task_id@, s),
{
    let m = "Task ".to_owned().concat(task_id).concat(" is in terminal state: ").concat(state_debug_text(s));
    A2AError::InvalidParams(m)
}

/// Checks that a message can start or continue a task: it needs an id and
/// at least one part.
pub fn validate_message(message: &Message) -> (r: Result<(), A2AError>)
    ensures
        message.message_id@.len() == 0 ==> (r matches Err(A2AError::InvalidParams(m)) && m@
            == "message ID is required"@),
        message.message_id@.len() > 0 && message.parts@.len() == 0 ==> (r matches Err(
            A2AError::InvalidParams(m),
        ) && m@ == "message parts is required"@),
        message.message_id@.len() > 0 && message.parts@.len() > 0 ==> r is Ok,
{
    if message.message_id.is_empty() {
        return Err(A2AError::InvalidParams("message ID is required".to_owned()));
    }
    if message.parts.len() == 0 {
        return Err(A2AError::InvalidParams("message parts is required".to_owned()));
    }
    Ok(())
}

/// A request ready for execution: its context, and the push configuration
/// the request asks to be saved for its task.
#[derive(Debug)]
pub struct PreparedRequest {
    /// The context the executor gets.
    pub context: RequestContext,
    /// The push configuration to save for the task, if the request has one.
    pub push_config: Option<PushNotificationConfig>,
}

/// The push configuration held in a task push configuration.
pub open spec fn push_view_of(t: TaskPushConfigView) -> PushConfigView {
    PushConfigView { id: t.id, url: t.url, token: t.token, authentication: t.authentication }
}

/// The push configuration held in a task push configuration.
pub fn push_config_of(tpc: &TaskPushNotificationConfig) -> (r: PushNotificationConfig)
    ensures
        r.deep_view() == push_view_of(tpc.deep_view()),
{
    PushNotificationConfig {
        id: crate::types::clone_opt_string(&tpc.id),
        url: tpc.url.clone(),
        token: crate::types::clone_opt_string(&tpc.token),
        authentication: crate::types::push::clone_opt_auth(&tpc.authentication),
    }
}

/// Prepares a send request for execution. `stored` is what the task store
/// holds under the message's task id (nothing when the message has none).
///
/// The message needs an id and parts. With a task id and a context id the
/// two are used as they are; with a task id alone the stored task must exist
/// and gives the context; without a task id a fresh one is made, and a fresh
/// context id too when the message has none. A stored task in a terminal
/// state cannot be continued.
pub fn prepare_request(params: &SendMessageRequest, stored: Option<Task>) -> (r: Result<PreparedRequest, A2AError>)
    ensures
        ({
            let m = params.message.deep_view();
            if m.message_id.len() == 0 {
                r matches Err(A2AError::InvalidParams(x)) && x@ == "message ID is required"@
            } else if m.parts.len() == 0 {
                r matches Err(A2AError::InvalidParams(x)) && x@ == "message parts is required"@
            } else if m.task_id is Some && m.context_id is None && stored is None {
                r matches Err(A2AError::TaskNotFound(x)) && x@ == m.task_id.unwrap()
            } else if m.task_id is Some && stored is Some && spec_is_terminal(stored.unwrap().status.state) {
                r matches Err(A2AError::InvalidParams(x)) && x@ == terminal_state_message(
                    m.task_id.unwrap(),
                    stored.unwrap().status.state,
                )
            } else {
                r matches Ok(p) && {
                    let c = p.context;
                    &&& c.message matches Some(x) && x.deep_view() == m
                    &&& c.tenant == params.tenant
                    &&& c.metadata.deep_view() == match params.metadata {
                        Some(md) => md.deep_view(),
                        None => Seq::empty(),
                    }
                    &&& c.related_tasks@.len() == 0
                    &&& c.service_params@.len() == 0
                    &&& !c.user.is_authenticated()
                    &&& match m.task_id {
                        Some(t) => {
                            &&& c.task_id@ == t
                            &&& c.stored_task.deep_view() == stored.deep_view()
                            &&& match m.context_id {
                                Some(cid) => c.context_id@ == cid,
                                None => c.context_id@ == stored.unwrap().context_id@,
                            }
                        },
                        None => {
                            &&& crate::external::is_uuid_text_of_version(c.task_id@, '7')
                            &&& c.stored_task is None
                            &&& match m.context_id {
                                Some(cid) => c.context_id@ == cid,
                                None => crate::external::is_uuid_text_of_version(c.context_id@, '7'),
                            }
                        },
                    }
                    &&& match params.configuration {
                        Some(cfg) => match cfg.task_push_notification_config {
                            Some(tpc) => p.push_config matches Some(pc) && pc.deep_view() == push_view_of(
                                tpc.deep_view(),
                            ),
                            None => p.push_config is None,
                        },
                        None => p.push_config is None,
                    }
                }
            }
        }),
{
    let message = &params.message;
    match validate_message(message) {
        Err(e) => return Err(e),
        Ok(()) => {}
    }
    let (task_id, context_id, stored_task): (String, String, Option<Task>) = match &message.task_id {
        Some(tid) => match &message.context_id {
            Some(cid) => (tid.as_str().to_owned(), cid.clone(), stored),
            None => match stored {
                Some(s) => {
                    let cid = s.context_id.as_str().to_owned();
                    (tid.as_str().to_owned(), cid, Some(s))
                }
                None => return Err(A2AError::TaskNotFound(tid.as_str().to_owned())),
            },
        },
        None => match &message.context_id {
            Some(cid) => (crate::external::new_uuid_v7_text(), cid.clone(), None),
            None => (crate::external::new_uuid_v7_text(), crate::external::new_uuid_v7_text(), None),
        },
    };
    match &stored_task {
        Some(t) => {
            if t.status.state.is_terminal() {
                return Err(terminal_state_error(task_id.as_str(), t.status.state));
            }
        }
        None => {}
    }
    let push_config = match &params.configuration {
        Some(cfg) => match &cfg.task_push_notification_config {
            Some(tpc) => Some(push_config_of(tpc)),
            None => None,
        },
        None => None,
    };
    let mut ctx = RequestContext::new(task_id.as_str(), context_id.as_str());
    ctx.message = Some(message.clone());
    ctx.stored_task = stored_task;
    ctx.metadata = match &params.metadata {
        Some(md) => md.clone(),
        None => Metadata::new(),
    };
    ctx.tenant = crate::types::clone_opt_string(&params.tenant);
    Ok(PreparedRequest { context: ctx, push_config })
}

/// A task that failed with the given error text, as reported when the
/// executor returns an error.
pub fn failed_task(task_id: &str, context_id: &str, error: &str) -> (r: Task)
    ensures
        r.id@ == task_id@,
        r.context_id@ == context_id@,
        r.status.state == TaskState::Failed,
        r.status.message matches Some(m) && m.parts.deep_view() == seq![crate::types::part::Part::text_view(error@)],
        r.deep_view() == new_task_view(task_id@, context_id@, r.status.deep_view()),
{
    let mut t = Task::new(task_id, context_id);
    t.status = TaskStatus::failed(error);
    t
}

/// Whether a send returns before the task finishes: only when its
/// configuration asks to return at once; a send without configuration
/// waits, as `return_immediately` is false by default.
pub fn is_non_blocking(configuration: &Option<SendMessageConfiguration>) -> (r: bool)
    ensures
        r == match configuration {
            Some(c) => c.return_immediately,
            None => false,
        },
{
    match configuration {
        Some(c) => c.return_immediately,
        None => false,
    }
}

/// Whether a non-streaming send returns early on `event`, and for which task:
/// a non-blocking send returns on the first event that is not a message and
/// has a task id; a blocking send returns when a task needs authentication.
pub open spec fn interrupt_task(is_non_blocking: bool, event: StreamResponse) -> Option<Seq<char>> {
    if is_non_blocking {
        if event is Message || event_task_id(event).len() == 0 {
            None
        } else {
            Some(event_task_id(event))
        }
    } else {
        match event {
            StreamResponse::Task(t) => if t.status.state == TaskState::AuthRequired {
                Some(t.id@)
            } else {
                None
            },
            StreamResponse::StatusUpdate(u) => if u.status.state == TaskState::AuthRequired {
                Some(u.task_id@)
            } else {
                None
            },
            _ => None,
        }
    }
}

/// Whether a non-streaming send is interrupted by `event`, with the task
/// whose stored state is then returned.
pub fn should_interrupt_non_streaming(is_non_blocking: bool, event: &StreamResponse) -> (r: Option<(String, bool)>)
    ensures
        match interrupt_task(is_non_blocking, *event) {
            Some(t) => r matches Some(p) && p.0@ == t && p.1,
            None => r is None,
        },
{
    if is_non_blocking {
        match event {
            StreamResponse::Message(_) => return None,
            _ => {}
        }
        let tid = event.task_id();
        if tid.unicode_len() > 0 {
            return Some((tid.to_owned(), true));
        }
        return None;
    }
    match event {
        StreamResponse::Task(t) => {
            if t.status.state == TaskState::AuthRequired {
                Some((t.id.as_str().to_owned(), true))
            } else {
                None
            }
        }
        StreamResponse::StatusUpdate(u) => {
            if u.status.state == TaskState::AuthRequired {
                Some((u.task_id.as_str().to_owned(), true))
            } else {
                None
            }
        }
        _ => None,
    }
}

/// The task snapshot to persist for an event, given what the store holds for
/// the event's task: a task event is stored as it is; a status update sets
/// a new status of its state (with the current time, without message) on
/// the stored task, when there is one; other events store nothing.
pub fn snapshot_for_event(event: &StreamResponse, stored: Option<Task>) -> (r: Option<Task>)
    ensures
        match *event {
            StreamResponse::Task(t) => r matches Some(x) && x.deep_view() == t.deep_view(),
            StreamResponse::StatusUpdate(u) => match stored {
                Some(s) => r matches Some(x) && x.status.state == u.status.state && x.status.message is None
                    && x.deep_view() == (TaskView { status: x.status.deep_view(), ..s.deep_view() }),
                None => r is None,
            },
            _ => r is None,
        },
{
    match event {
        StreamResponse::Task(t) => Some(t.clone()),
        StreamResponse::StatusUpdate(u) => match stored {
            Some(mut s) => {
                s.status = TaskStatus::new(u.status.state);
                Some(s)
            }
            None => None,
        },
        _ => None,
    }
}

/// What an event of a non-streaming send leads to.
#[derive(Debug)]
pub enum EventOutcome {
    /// Reply with the stored task of the given id (a placeholder when there
    /// is none).
    ReplyWithStoredTask(String),
    /// Reply with this response.
    Reply(SendMessageResponse),
    /// Fail with this error.
    Fail(A2AError),
    /// Wait for the next event, remembering this one.
    Continue(StreamResponse),
}

/// What `event` leads to in a non-streaming send: an early return when it
/// interrupts, the event itself when it is terminal (the stored task for a
/// status update; an error for an artifact update), else waiting on.
pub fn decide_event(event: StreamResponse, is_non_blocking: bool) -> (r: EventOutcome)
    ensures
        match interrupt_task(is_non_blocking, event) {
            Some(t) => r matches EventOutcome::ReplyWithStoredTask(x) && x@ == t,
            None => if event_is_terminal(event) {
                match event {
                    StreamResponse::Task(t) => r matches EventOutcome::Reply(SendMessageResponse::Task(x))
                        && x == t,
                    StreamResponse::Message(m) => r matches EventOutcome::Reply(SendMessageResponse::Message(x))
                        && x == m,
                    StreamResponse::StatusUpdate(u) => r matches EventOutcome::ReplyWithStoredTask(x)
                        && x@ == u.task_id@,
                    StreamResponse::ArtifactUpdate(_) => r matches EventOutcome::Fail(A2AError::Other(x))
                        && x@ == "Unexpected terminal event"@,
                }
            } else {
                r matches EventOutcome::Continue(x) && x == event
            },
        },
        !is_non_blocking ==> (event matches StreamResponse::Task(t) ==> (t.status.state != TaskState::AuthRequired
            && !spec_is_terminal(t.status.state) ==> (r matches EventOutcome::Continue(x) && x == event))),
        !is_non_blocking ==> (event matches StreamResponse::Task(t) ==> (spec_is_terminal(t.status.state)
            ==> (r matches EventOutcome::Reply(SendMessageResponse::Task(x)) && x == t))),
{
    match should_interrupt_non_streaming(is_non_blocking, &event) {
        Some((tid, _)) => return EventOutcome::ReplyWithStoredTask(tid),
        None => {}
    }
    if event.is_terminal() {
        match event {
            StreamResponse::Task(t) => EventOutcome::Reply(SendMessageResponse::Task(t)),
            StreamResponse::Message(m) => EventOutcome::Reply(SendMessageResponse::Message(m)),
            StreamResponse::StatusUpdate(u) => EventOutcome::ReplyWithStoredTask(u.task_id.as_str().to_owned()),
            StreamResponse::ArtifactUpdate(_) => EventOutcome::Fail(
                A2AError::Other("Unexpected terminal event".to_owned()),
            ),
        }
    } else {
        EventOutcome::Continue(event)
    }
}

/// The task to reply with for a task id: the stored one, or a bare
/// submitted task with that id and an empty context.
pub fn task_or_placeholder(stored: Option<Task>, task_id: &str) -> (r: Task)
    ensures
        stored is Some ==> r == stored.unwrap(),
        stored is None ==> r.deep_view() == new_task_view(task_id@, Seq::empty(), r.status.deep_view())
            && r.status.state == TaskState::Submitted,
{
    match stored {
        Some(s) => s,
        None => {
            proof {
                reveal_strlit("");
                assert(""@ =~= Seq::<char>::empty());
            }
            Task::new(task_id, "")
        }
    }
}

/// What the end of the event queue leads to in a non-streaming send, given
/// the last event seen: nothing seen is an error; a task or a message is the
/// reply; another event replies with the stored task of its id, and is an
/// error when it has none.
pub fn decide_on_close(last_event: Option<StreamResponse>) -> (r: EventOutcome)
    ensures
        match last_event {
            None => r matches EventOutcome::Fail(A2AError::Other(x)) && x@ == "Event queue closed unexpectedly"@,
            Some(StreamResponse::Task(t)) => r matches EventOutcome::Reply(SendMessageResponse::Task(x)) && x == t,
            Some(StreamResponse::Message(m)) => r matches EventOutcome::Reply(SendMessageResponse::Message(x))
                && x == m,
            Some(e) => if event_task_id(e).len() == 0 {
                r matches EventOutcome::Fail(A2AError::Other(x)) && x@ == "Event has no task ID"@
            } else {
                r matches EventOutcome::ReplyWithStoredTask(x) && x@ == event_task_id(e)
            },
        },
{
    match last_event {
        None => EventOutcome::Fail(A2AError::Other("Event queue closed unexpectedly".to_owned())),
        Some(StreamResponse::Task(t)) => EventOutcome::Reply(SendMessageResponse::Task(t)),
        Some(StreamResponse::Message(m)) => EventOutcome::Reply(SendMessageResponse::Message(m)),
        Some(e) => {
            let tid = e.task_id();
            if tid.unicode_len() == 0 {
                EventOutcome::Fail(A2AError::Other("Event has no task ID".to_owned()))
            } else {
                EventOutcome::ReplyWithStoredTask(tid.to_owned())
            }
        }
    }
}

/// Limits the history of a reply's task when the request configures a limit.
pub fn finish_send_reply(reply: SendMessageResponse, configuration: &Option<SendMessageConfiguration>) -> (r: SendMessageResponse)
    ensures
        match (reply, configuration) {
            (SendMessageResponse::Task(t), Some(c)) => r matches SendMessageResponse::Task(x) && x.deep_view()
                == (TaskView { history: limited_history(t.history.deep_view(), c.history_length), ..t.deep_view() }),
            _ => r == reply,
        },
{
    match reply {
        SendMessageResponse::Task(mut t) => match configuration {
            Some(c) => {
                apply_history_length(&mut t, c.history_length);
                SendMessageResponse::Task(t)
            }
            None => SendMessageResponse::Task(t),
        },
        other => other,
    }
}

/// The reply to a get-task request, given the stored task: the task with
/// its history limited, or a task-not-found error.
pub fn get_task_reply(task_id: &str, stored: Option<Task>, history_length: Option<i32>) -> (r: Result<Task, A2AError>)
    ensures
        match stored {
            Some(s) => r matches Ok(x) && x.deep_view() == (TaskView {
                history: limited_history(s.history.deep_view(), history_length),
                ..s.deep_view()
            }),
            None => r matches Err(A2AError::TaskNotFound(x)) && x@ == task_id@,
        },
{
    match stored {
        Some(mut t) => {
            apply_history_length(&mut t, history_length);
            Ok(t)
        }
        None => Err(A2AError::TaskNotFound(task_id.to_owned())),
    }
}

/// Whether a task can be canceled, given the stored task: it must exist and
/// not be in a terminal state.
pub fn check_cancelable(task_id: &str, stored: &Option<Task>) -> (r: Result<(), A2AError>)
    ensures
        match *stored {
            None => r matches Err(A2AError::TaskNotFound(x)) && x@ == task_id@,
            Some(s) => if spec_is_terminal(s.status.state) {
                r matches Err(A2AError::TaskNotCancelable(x)) && x@ == task_id@
            } else {
                r is Ok
            },
        },
{
    match stored {
        None => Err(A2AError::TaskNotFound(task_id.to_owned())),
        Some(s) => {
            if s.status.state.is_terminal() {
                Err(A2AError::TaskNotCancelable(task_id.to_owned()))
            } else {
                Ok(())
            }
        }
    }
}

/// The context a cancellation runs with: the stored task's ids and the task
/// itself, no message and no metadata.
pub fn cancel_context(task: Task) -> (r: RequestContext)
    ensures
        r.task_id@ == task.id@,
        r.context_id@ == task.context_id@,
        r.stored_task == Some(task),
        r.message is None,
        r.metadata.as_map() == Map::<Seq<char>, serde_json::Value>::empty(),
{
    let mut ctx = RequestContext::new(task.id.as_str(), task.context_id.as_str());
    ctx.stored_task = Some(task);
    ctx
}

/// The result of a cancellation: the task it produced, or an error when it
/// produced a message.
pub fn cancel_reply(reply: SendMessageResponse) -> (r: Result<Task, A2AError>)
    ensures
        match reply {
            SendMessageResponse::Task(t) => r == Ok::<Task, A2AError>(t),
            SendMessageResponse::Message(_) => r matches Err(A2AError::Other(x)) && x@
                == "Cancel did not produce a Task"@,
        },
{
    match reply {
        SendMessageResponse::Task(t) => Ok(t),
        SendMessageResponse::Message(_) => Err(A2AError::Other("Cancel did not produce a Task".to_owned())),
    }
}

/// Whether a client can subscribe to a task, given the stored task and
/// whether its event queue exists: the task must exist and not be in a
/// terminal state, and its queue must exist.
pub fn check_subscribable(task_id: &str, stored: &Option<Task>, queue_exists: bool) -> (r: Result<(), A2AError>)
    ensures
        match *stored {
            None => r matches Err(A2AError::TaskNotFound(x)) && x@ == task_id@,
            Some(s) => if spec_is_terminal(s.status.state) {
                r matches Err(A2AError::InvalidParams(x)) && x@ == terminal_state_message(task_id@, s.status.state)
            } else if !queue_exists {
                r matches Err(A2AError::TaskNotFound(x)) && x@ == task_id@
            } else {
                r is Ok
            },
        },
{
    match stored {
        None => Err(A2AError::TaskNotFound(task_id.to_owned())),
        Some(s) => {
            if s.status.state.is_terminal() {
                Err(terminal_state_error(task_id, s.status.state))
            } else if !queue_exists {
                Err(A2AError::TaskNotFound(task_id.to_owned()))
            } else {
                Ok(())
            }
        }
    }
}

/// Whether push configurations can be managed for a task: the agent must
/// support push notifications, and the task must exist.
pub fn check_push_support(supports_push: bool, task_id: &str, task_exists: bool) -> (r: Result<(), A2AError>)
    ensures
        !supports_push ==> r matches Err(A2AError::PushNotificationNotSupported),
        supports_push && !task_exists ==> (r matches Err(A2AError::TaskNotFound(x)) && x@ == task_id@),
        supports_push && task_exists ==> r is Ok,
{
    if !supports_push {
        return Err(A2AError::PushNotificationNotSupported);
    }
    if !task_exists {
        return Err(A2AError::TaskNotFound(task_id.to_owned()));
    }
    Ok(())
}

/// The reply to creating a push configuration: the request's tenant and
/// task, with the id, URL, token and authentication that were saved.
pub fn created_push_config_reply(params: &TaskPushNotificationConfig, saved: PushNotificationConfig) -> (r: TaskPushNotificationConfig)
    ensures
        r.deep_view() == (TaskPushConfigView {
            tenant: params.tenant.deep_view(),
            id: saved.id.deep_view(),
            task_id: params.task_id.deep_view(),
            url: saved.url@,
            token: saved.token.deep_view(),
            authentication: saved.authentication.deep_view(),
        }),
{
    TaskPushNotificationConfig {
        tenant: crate::types::clone_opt_string(&params.tenant),
        id: saved.id,
        task_id: match &params.task_id {
            Some(t) => Some(t.clone()),
            None => None,
        },
        url: saved.url,
        token: saved.token,
        authentication: saved.authentication,
    }
}

/// A stored push configuration as a task push configuration of `task_id`
/// with the given id and tenant.
pub fn task_push_config_reply(tenant: &Option<String>, id: &str, task_id: &str, config: PushNotificationConfig) -> (r: TaskPushNotificationConfig)
    ensures
        r.deep_view() == (TaskPushConfigView {
            tenant: tenant.deep_view(),
            id: Some(id@),
            task_id: Some(task_id@),
            url: config.url@,
            token: config.token.deep_view(),
            authentication: config.authentication.deep_view(),
        }),
{
    TaskPushNotificationConfig {
        tenant: crate::types::clone_opt_string(tenant),
        id: Some(id.to_owned()),
        task_id: Some(crate::types::id::TaskId::from_string(task_id)),
        url: config.url,
        token: config.token,
        authentication: config.authentication,
    }
}

/// The id a listed push configuration is shown with: its own, or its
/// position in the list in decimal.
pub open spec fn listed_config_id(c: PushConfigView, i: nat) -> Seq<char> {
    match c.id {
        Some(x) => x,
        None => crate::text::decimal(i),
    }
}

/// The reply to listing the push configurations of a task: each as a task
/// configuration of `task_id` with the request's tenant, without a next page.
pub fn list_push_configs_reply(tenant: &Option<String>, task_id: &str, configs: Vec<PushNotificationConfig>) -> (r: ListTaskPushNotificationConfigsResponse)
    ensures
        r.next_page_token is None,
        r.configs@.len() == configs@.len(),
        forall|i: int| 0 <= i < configs@.len() ==> #[trigger] r.configs@[i].deep_view() == (TaskPushConfigView {
            tenant: tenant.deep_view(),
            id: Some(listed_config_id(configs@[i].deep_view(), i as nat)),
            task_id: Some(task_id@),
            url: configs@[i].url@,
            token: configs@[i].token.deep_view(),
            authentication: configs@[i].authentication.deep_view(),
        }),
{
    let ghost orig = configs@;
    let mut out: Vec<TaskPushNotificationConfig> = Vec::new();
    let mut rest = configs;
    let mut i: usize = 0;
    let n = rest.len();
    while i < n
        invariant
            i <= n,
            n == orig.len(),
            out@.len() == i,
            forall|j: int| 0 <= j < i ==> #[trigger] out@[j].deep_view() == (TaskPushConfigView {
                tenant: tenant.deep_view(),
                id: Some(listed_config_id(orig[j].deep_view(), j as nat)),
                task_id: Some(task_id@),
                url: orig[j].url@,
                token: orig[j].token.deep_view(),
                authentication: orig[j].authentication.deep_view(),
            }),
            rest@ == orig,
        decreases n - i,
    {
        let c = rest[i].clone();
        let id = match &c.id {
            Some(x) => x.clone(),
            None => crate::text::u64_to_decimal(i as u64),
        };
        let item = task_push_config_reply(tenant, id.as_str(), task_id, c);
        out.push(item);
        i = i + 1;
    }
    ListTaskPushNotificationConfigsResponse { configs: out, next_page_token: None }
}

/// The task ids that the request's message references (none without a
/// message).
pub fn referenced_task_ids(ctx: &RequestContext) -> (r: Vec<String>)
    ensures
        match ctx.message {
            Some(m) => r.deep_view() == m.reference_task_ids.deep_view(),
            None => r@.len() == 0,
        },
{
    match &ctx.message {
        Some(m) => {
            let mut out: Vec<String> = Vec::new();
            let mut i: usize = 0;
            while i < m.reference_task_ids.len()
                invariant
                    i <= m.reference_task_ids.len(),
                    out.deep_view() == m.reference_task_ids.deep_view().subrange(0, i as int),
                decreases m.reference_task_ids.len() - i,
            {
                let ghost before = out.deep_view();
                out.push(m.reference_task_ids[i].as_str().to_owned());
                assert(out.deep_view() =~= before.push(m.reference_task_ids.deep_view()[i as int]));
                assert(m.reference_task_ids.deep_view().subrange(0, i + 1) =~= m.reference_task_ids.deep_view().subrange(
                    0,
                    i as int,
                ).push(m.reference_task_ids.deep_view()[i as int]));
                i = i + 1;
            }
            assert(m.reference_task_ids.deep_view().subrange(0, m.reference_task_ids.len() as int)
                =~= m.reference_task_ids.deep_view());
            out
        }
        None => Vec::new(),
    }
}

/// Attaches the referenced tasks that were found; when none was found the
/// related tasks stay as they were.
pub fn attach_related_tasks(ctx: &mut RequestContext, tasks: Vec<Task>)
    ensures
        tasks@.len() > 0 ==> final(ctx).related_tasks == tasks,
        tasks@.len() == 0 ==> final(ctx).related_tasks == old(ctx).related_tasks,
        final(ctx).task_id == old(ctx).task_id,
        final(ctx).context_id == old(ctx).context_id,
        final(ctx).message == old(ctx).message,
        final(ctx).stored_task == old(ctx).stored_task,
{
    if tasks.len() > 0 {
        ctx.related_tasks = tasks;
    }
}

} // verus!
