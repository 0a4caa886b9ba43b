use ra2a::error::A2AError;
use ra2a::server::call_context::{AuthenticatedUser, ServerCallContextBuilder};
use ra2a::server::middleware::{event_after_interceptors, request_after_interceptors, response_after_interceptors};
use ra2a::server::push::{
    checked_notification_authorization, last_failure, notification_authorization, push_response_result, push_delivery_result, HttpPushSenderConfig,
    PushNotificationAuthenticationInfo,
};
use ra2a::server::streaming::{
    execution_events, initial_stream_task, resubscribe_plan, streaming_ids, working_event, ResubscribePlan,
    StreamingConfig,
};
use ra2a::types::event::StreamResponse;
use ra2a::server::task_store::{string_to_task_state, task_state_to_string};
use ra2a::server::task_updater::TaskUpdater;
use ra2a::types::id::TaskId;
use ra2a::types::message::{Message, Role};
use ra2a::types::part::Part;
use ra2a::types::task::{Task, TaskState};
use ra2a::types::Metadata;

fn other_text(r: Result<u32, A2AError>) -> String {
    match r {
        Err(A2AError::Other(m)) => m,
        _ => panic!("expected an error of kind Other"),
    }
}

#[test]
fn request_payload_kept_after_interceptors() {
    assert_eq!(request_after_interceptors(Some(7u32)).ok(), Some(7));
    assert_eq!(other_text(request_after_interceptors(None)), "interceptor changed request payload type");
}

#[test]
fn response_after_interceptors_prefers_error() {
    let r = response_after_interceptors(Some(A2AError::Other("boom".to_owned())), Some(Some(1u32)));
    assert_eq!(other_text(r), "boom");
    assert_eq!(response_after_interceptors(None, Some(Some(5u32))).ok(), Some(5));
    assert_eq!(
        other_text(response_after_interceptors(None, Some(None))),
        "interceptor changed response payload type"
    );
    assert_eq!(other_text(response_after_interceptors(None, None)), "no response payload");
}

#[test]
fn stream_event_after_interceptors() {
    assert_eq!(event_after_interceptors(None, Some(3u32)).ok(), Some(3));
    assert_eq!(other_text(event_after_interceptors(None, None)), "missing event after interceptor");
    let r = event_after_interceptors(Some(A2AError::Other("stop".to_owned())), Some(3u32));
    assert_eq!(other_text(r), "stop");
}

#[test]
fn call_context_builder_sets_user_extensions_and_state() {
    let user = AuthenticatedUser::new("u-1", "alice");
    let ctx = ServerCallContextBuilder::new()
        .user(&user)
        .requested_extension("ext:a")
        .state("k", serde_json::Value::Bool(true))
        .build();
    assert!(ctx.is_authenticated());
    assert_eq!(ctx.user_name(), "alice");
    assert!(ctx.is_extension_requested("ext:a"));
    assert!(!ctx.is_extension_requested("ext:b"));
    assert!(ctx.get_state("k").is_some());
}

#[test]
fn call_context_remove_state() {
    let mut ctx = ServerCallContextBuilder::new()
        .state("k", serde_json::Value::from(1))
        .build();
    assert_eq!(ctx.remove_state("k"), Some(serde_json::Value::from(1)));
    assert!(ctx.get_state("k").is_none());
    assert_eq!(ctx.remove_state("k"), None);
}

#[test]
fn metadata_remove_gives_back_value() {
    let mut m = Metadata::new();
    assert_eq!(m.insert("a".to_owned(), serde_json::Value::from("x")), None);
    assert_eq!(m.insert("b".to_owned(), serde_json::Value::from(2)), None);
    assert_eq!(m.len(), 2);
    assert_eq!(m.remove("a"), Some(serde_json::Value::from("x")));
    assert_eq!(m.len(), 1);
    assert!(m.get("a").is_none());
    assert_eq!(m.remove("a"), None);
    assert_eq!(m.get("b"), Some(&serde_json::Value::from(2)));
}

#[test]
fn notification_authorization_token_only() {
    assert_eq!(notification_authorization(&None, Some("tok")), Some("Bearer tok".to_owned()));
    assert_eq!(notification_authorization(&None, None), None);
}

#[test]
fn notification_authorization_first_usable_scheme() {
    let auth = Some(PushNotificationAuthenticationInfo {
        schemes: vec!["Digest".to_owned(), "BASIC".to_owned(), "Bearer".to_owned()],
        credentials: Some("dXNlcjpwdw==".to_owned()),
    });
    assert_eq!(notification_authorization(&auth, Some("tok")), Some("Basic dXNlcjpwdw==".to_owned()));
}

#[test]
fn notification_authorization_bearer_falls_back_to_token() {
    let auth = Some(PushNotificationAuthenticationInfo {
        schemes: vec!["basic".to_owned(), "bearer".to_owned()],
        credentials: None,
    });
    assert_eq!(notification_authorization(&auth, Some("tok")), Some("Bearer tok".to_owned()));
    assert_eq!(notification_authorization(&auth, None), None);
}

#[test]
fn state_column_round_trip_for_every_state() {
    let states = [
        TaskState::Submitted,
        TaskState::Working,
        TaskState::InputRequired,
        TaskState::Completed,
        TaskState::Canceled,
        TaskState::Failed,
        TaskState::Rejected,
        TaskState::AuthRequired,
        TaskState::Unspecified,
    ];
    for s in states {
        assert_eq!(string_to_task_state(&task_state_to_string(s)), s);
    }
    assert_eq!(task_state_to_string(TaskState::InputRequired), "input-required");
    assert_eq!(string_to_task_state("no-such-state"), TaskState::Unspecified);
}

#[test]
fn task_updater_lifecycle() {
    let mut u = TaskUpdater::new(Task::new("t-1", "c-1"));
    assert_eq!(u.task_id(), "t-1");
    u.start_working();
    assert_eq!(u.task().status.state, TaskState::Working);
    u.add_agent_message("thinking");
    assert_eq!(u.task().history.len(), 1);
    u.add_text_artifact("out", "42");
    let t = u.task();
    assert_eq!(t.artifacts.len(), 1);
    assert_eq!(t.artifacts[0].name.as_deref(), Some("out"));
    assert_eq!(t.artifacts[0].parts[0].as_text(), Some("42"));
    u.complete();
    assert_eq!(u.task().status.state, TaskState::Completed);
}

#[test]
fn task_updater_fail_records_message() {
    let mut u = TaskUpdater::new(Task::new("t-2", "c-2"));
    u.fail("disk full");
    let t = u.task();
    assert_eq!(t.status.state, TaskState::Failed);
    let m = t.status.message.expect("a status message");
    assert_eq!(m.role, Role::Agent);
    assert_eq!(m.parts[0].as_text(), Some("disk full"));
    assert_eq!(t.history.len(), 1);
}

#[test]
fn task_updater_require_input() {
    let mut u = TaskUpdater::new(Task::new("t-3", "c-3"));
    u.require_input("which file?");
    let t = u.task();
    assert_eq!(t.status.state, TaskState::InputRequired);
    assert_eq!(t.status.message.unwrap().parts[0].as_text(), Some("which file?"));
}

#[test]
fn streaming_ids_from_message_then_task() {
    let m = Message::user(vec![Part::text("hi")]).with_task_id(TaskId::from_string("t-9"));
    let (tid, cid) = streaming_ids(&m, &Some(Task::new("t-9", "c-9")));
    assert_eq!(tid, "t-9");
    assert_eq!(cid, "c-9");
    let own = m.with_context_id("c-own");
    let (tid2, cid2) = streaming_ids(&own, &None);
    assert_eq!(tid2, "t-9");
    assert_eq!(cid2, "c-own");
    let (tid3, cid3) = streaming_ids(&Message::user(vec![Part::text("hi")]).with_context_id("c-own"), &None);
    assert_eq!(tid3.len(), 36);
    assert_eq!(cid3.len(), 36);
    assert_ne!(cid3, "c-own");
}

#[test]
fn resubscribe_unknown_task_is_not_found() {
    let cfg = StreamingConfig { buffer_size: 8, send_initial_state: true };
    match resubscribe_plan("t-x", None, true, &cfg) {
        Err(e) => {
            assert_eq!(e.code, -32001);
            assert_eq!(e.message, "Task 't-x' not found");
        }
        Ok(_) => panic!("expected an error"),
    }
}

#[test]
fn resubscribe_finished_task_without_queue_sends_final_state() {
    let cfg = StreamingConfig { buffer_size: 8, send_initial_state: false };
    let mut t = Task::new("t-1", "c-1");
    t.status.state = TaskState::Completed;
    match resubscribe_plan("t-1", Some(t), false, &cfg) {
        Ok(ResubscribePlan::SendFinalState(t)) => assert_eq!(t.id.as_str(), "t-1"),
        _ => panic!("expected the final state"),
    }
}

#[test]
fn resubscribe_live_task_follows_queue() {
    let with_state = StreamingConfig { buffer_size: 8, send_initial_state: true };
    let without = StreamingConfig { buffer_size: 8, send_initial_state: false };
    match resubscribe_plan("t-1", Some(Task::new("t-1", "c-1")), true, &with_state) {
        Ok(ResubscribePlan::Follow(Some(t))) => assert_eq!(t.id.as_str(), "t-1"),
        _ => panic!("expected to follow with the state"),
    }
    match resubscribe_plan("t-1", Some(Task::new("t-1", "c-1")), false, &without) {
        Ok(ResubscribePlan::Follow(None)) => {}
        _ => panic!("expected to follow without the state"),
    }
}

#[test]
fn jsonrpc_error_converts_into_protocol_error() {
    let e = A2AError::from(ra2a::error::JsonRpcError::parse_error());
    assert_eq!(e.jsonrpc_code(), Some(-32700));
    let s = A2AError::from(ra2a::error::ServerError::new(ra2a::error::JsonRpcError::internal_error("x")));
    assert!(matches!(s, A2AError::Server(_)));
}

#[test]
fn push_delivery_failure_only_fails_when_configured() {
    let lenient = HttpPushSenderConfig::default();
    assert!(push_delivery_result(&lenient, Some("down".to_owned())).is_ok());
    assert!(push_delivery_result(&lenient, None).is_ok());
    let strict = HttpPushSenderConfig { fail_on_error: true, ..HttpPushSenderConfig::default() };
    match push_delivery_result(&strict, Some("down".to_owned())) {
        Err(A2AError::ServerError(m)) => assert_eq!(m, "down"),
        _ => panic!("expected a server error"),
    }
    assert!(push_delivery_result(&strict, None).is_ok());
}

#[test]
fn stream_starts_with_submitted_task_when_configured() {
    let on = StreamingConfig { buffer_size: 4, send_initial_state: true };
    let off = StreamingConfig { buffer_size: 4, send_initial_state: false };
    let t = initial_stream_task("t-1", "c-1", &on).expect("an initial task");
    assert_eq!(t.id.as_str(), "t-1");
    assert_eq!(t.context_id.as_str(), "c-1");
    assert_eq!(t.status.state, TaskState::Submitted);
    assert!(initial_stream_task("t-1", "c-1", &off).is_none());
    match working_event("t-1", "c-1") {
        StreamResponse::StatusUpdate(u) => {
            assert_eq!(u.task_id.as_str(), "t-1");
            assert_eq!(u.status.state, TaskState::Working);
        }
        _ => panic!("expected a status update"),
    }
}

#[test]
fn execution_events_of_finished_task() {
    let mut t = Task::new("t-1", "c-1");
    t.status.state = TaskState::Completed;
    let events = execution_events("t-x", "c-x", Ok(t));
    assert_eq!(events.len(), 2);
    match &events[0] {
        StreamResponse::StatusUpdate(u) => {
            assert_eq!(u.task_id.as_str(), "t-1");
            assert_eq!(u.context_id.as_str(), "c-1");
            assert_eq!(u.status.state, TaskState::Completed);
        }
        _ => panic!("expected a status update first"),
    }
    match &events[1] {
        StreamResponse::Task(x) => assert_eq!(x.id.as_str(), "t-1"),
        _ => panic!("expected the task last"),
    }
}

#[test]
fn execution_events_of_failed_run() {
    let events = execution_events("t-x", "c-x", Err("boom".to_owned()));
    assert_eq!(events.len(), 1);
    match &events[0] {
        StreamResponse::StatusUpdate(u) => {
            assert_eq!(u.task_id.as_str(), "t-x");
            assert_eq!(u.context_id.as_str(), "c-x");
            assert_eq!(u.status.state, TaskState::Failed);
            let m = u.status.message.as_ref().expect("a message");
            assert_eq!(m.role, Role::Agent);
            assert_eq!(m.parts[0].as_text(), Some("boom"));
        }
        _ => panic!("expected a status update"),
    }
}

#[test]
fn call_context_headers_from_state() {
    let ctx = ServerCallContextBuilder::new().state("headers", serde_json::Value::from("h")).build();
    assert_eq!(ctx.headers(), Some(&serde_json::Value::from("h")));
    let empty = ServerCallContextBuilder::new().build();
    assert!(empty.headers().is_none());
}

#[test]
fn paging_with_next_token_continues_after_page() {
    let mut store = ra2a::server::task_store::InMemoryTaskStore::new();
    for id in ["a", "b", "c"] {
        store.save(&Task::new(id, "ctx"));
    }
    let first = ra2a::types::request::ListTasksRequest {
        tenant: None,
        context_id: None,
        status: None,
        page_size: Some(2),
        page_token: None,
        history_length: None,
        status_timestamp_after: None,
        include_artifacts: Some(false),
    };
    let page1 = store.list(&first);
    let ids1: Vec<&str> = page1.tasks.iter().map(|t| t.id.as_str()).collect();
    assert_eq!(ids1, vec!["a", "b"]);
    assert_eq!(page1.total_size, Some(3));
    let token = page1.next_page_token.clone().expect("a next page");
    assert_eq!(token, "2");
    let second = ra2a::types::request::ListTasksRequest { page_token: Some(token), ..first };
    let page2 = store.list(&second);
    let ids2: Vec<&str> = page2.tasks.iter().map(|t| t.id.as_str()).collect();
    assert_eq!(ids2, vec!["c"]);
    assert_eq!(page2.next_page_token, None);
}

#[test]
fn last_failure_reports_the_last_error() {
    assert!(last_failure(vec![]).is_ok());
    assert!(last_failure(vec![Ok(()), Ok(())]).is_ok());
    let r = last_failure(vec![
        Err(A2AError::Other("first".to_owned())),
        Ok(()),
        Err(A2AError::Other("second".to_owned())),
        Ok(()),
    ]);
    match r {
        Err(A2AError::Other(m)) => assert_eq!(m, "second"),
        _ => panic!("expected the last failure"),
    }
}

#[test]
fn client_events_hold_task_updates_and_messages() {
    let u = ra2a::types::event::TaskStatusUpdateEvent::new("t-1", "c-1", ra2a::types::task::TaskStatus::working());
    let ev = ra2a::client::ClientEvent::TaskUpdate {
        task: Task::new("t-1", "c-1"),
        update: Some(ra2a::client::UpdateEvent::Status(u)),
    };
    match ev.clone() {
        ra2a::client::ClientEvent::TaskUpdate { task, update } => {
            assert_eq!(task.id.as_str(), "t-1");
            assert!(matches!(update, Some(ra2a::client::UpdateEvent::Status(_))));
        }
        _ => panic!("expected a task update"),
    }
}

#[test]
fn test_state() {
    let mut ctx = ra2a::server::call_context::ServerCallContext::new();
    ctx.set_state("key1", serde_json::Value::from("value1"));

    assert_eq!(ctx.get_state("key1"), Some(&serde_json::Value::from("value1")));
    assert!(ctx.get_state("key2").is_none());

    let removed = ctx.remove_state("key1");
    assert_eq!(removed, Some(serde_json::Value::from("value1")));
    assert!(ctx.get_state("key1").is_none());
}

#[test]
fn test_builder() {
    let ctx = ServerCallContextBuilder::new()
        .user(&AuthenticatedUser::new("u1", "Bob"))
        .requested_extension("ext1")
        .state("method", serde_json::Value::from("POST"))
        .build();

    assert!(ctx.is_authenticated());
    assert_eq!(ctx.user_name(), "Bob");
    assert!(ctx.is_extension_requested("ext1"));
    assert_eq!(ctx.http_method(), Some("POST"));
}

#[test]
fn test_context_metadata() {
    let message = Message::user_text("Test");
    let mut metadata = Metadata::new();
    metadata.insert("key".to_string(), serde_json::Value::from("value"));

    let ctx = ra2a::server::context_builder::ExtendedRequestContext::create(message).with_metadata(metadata);

    assert_eq!(ctx.get_metadata("key"), Some(&serde_json::Value::from("value")));
    assert_eq!(ctx.get_metadata("missing"), None);
}

#[test]
fn test_extension_metadata() {
    let mut ctx = ra2a::types::extensions::ExtensionContext::new();
    ctx.set_metadata("key", serde_json::Value::from("value"));

    assert_eq!(ctx.get_metadata("key"), Some(&serde_json::Value::from("value")));
}

#[test]
fn http_method_needs_text() {
    let ctx = ServerCallContextBuilder::new().state("method", serde_json::Value::from(5)).build();
    assert_eq!(ctx.http_method(), None);
    assert_eq!(ServerCallContextBuilder::new().build().http_method(), None);
}

fn list_request() -> ra2a::types::request::ListTasksRequest {
    ra2a::types::request::ListTasksRequest {
        tenant: None,
        context_id: None,
        status: None,
        page_size: None,
        page_token: None,
        history_length: None,
        status_timestamp_after: None,
        include_artifacts: Some(false),
    }
}

#[test]
fn list_limits_history_and_artifacts() {
    let mut store = ra2a::server::task_store::InMemoryTaskStore::new();
    let mut t = Task::new("t-1", "ctx");
    for text in ["one", "two", "three"] {
        t.add_message(Message::user_text(text));
    }
    t.add_artifact(ra2a::types::artifact::Artifact::new("a-1", vec![Part::text("x")]));
    store.save(&t);
    let page = store.list(&ra2a::types::request::ListTasksRequest { history_length: Some(2), ..list_request() });
    let listed = &page.tasks[0];
    assert_eq!(listed.history.len(), 2);
    assert_eq!(listed.history[0].parts[0].as_text(), Some("two"));
    assert_eq!(listed.history[1].parts[0].as_text(), Some("three"));
    assert!(listed.artifacts.is_empty());
    let full = store.list(&ra2a::types::request::ListTasksRequest { include_artifacts: Some(true), ..list_request() });
    assert_eq!(full.tasks[0].history.len(), 3);
    assert_eq!(full.tasks[0].artifacts.len(), 1);
    let unset = store.list(&ra2a::types::request::ListTasksRequest { include_artifacts: None, ..list_request() });
    assert_eq!(unset.tasks[0].artifacts.len(), 1);
    assert_eq!(unset.tasks[0].history.len(), 3);
    let none = store.list(&ra2a::types::request::ListTasksRequest { history_length: Some(0), ..list_request() });
    assert!(none.tasks[0].history.is_empty());
}

#[test]
fn list_keeps_tasks_updated_after_the_filter() {
    let mut store = ra2a::server::task_store::InMemoryTaskStore::new();
    let mut old = Task::new("old", "ctx");
    old.status.timestamp = Some("2024-01-01T00:00:00Z".to_owned());
    let mut new = Task::new("new", "ctx");
    new.status.timestamp = Some("2024-06-01T12:00:00+02:00".to_owned());
    let mut unknown = Task::new("unknown", "ctx");
    unknown.status.timestamp = None;
    store.save(&old);
    store.save(&new);
    store.save(&unknown);
    let req = ra2a::types::request::ListTasksRequest {
        status_timestamp_after: Some("2024-03-01T00:00:00Z".to_owned()),
        ..list_request()
    };
    let page = store.list(&req);
    let ids: Vec<&str> = page.tasks.iter().map(|t| t.id.as_str()).collect();
    assert_eq!(ids, vec!["new"]);
    assert_eq!(page.total_size, Some(1));
    let unreadable = ra2a::types::request::ListTasksRequest {
        status_timestamp_after: Some("yesterday".to_owned()),
        ..list_request()
    };
    assert_eq!(store.list(&unreadable).tasks.len(), 3);
}

#[test]
fn request_meta_reads_back_any_case() {
    let m = ra2a::server::middleware::RequestMeta::new(vec![
        ("Content-Type".to_owned(), vec!["text/plain".to_owned()]),
        ("X-A2A-Extensions".to_owned(), vec!["a".to_owned(), "b".to_owned()]),
    ]);
    assert_eq!(m.iter().len(), 2);
    assert_eq!(m.get("content-type"), Some(&["text/plain".to_owned()][..]));
    assert_eq!(m.get("CONTENT-TYPE"), Some(&["text/plain".to_owned()][..]));
    assert!(m.iter().iter().all(|(k, _)| k.to_lowercase() == *k));
    let w = m.with(vec![("content-TYPE".to_owned(), vec!["json".to_owned()])]);
    assert_eq!(w.get("Content-Type"), Some(&["json".to_owned()][..]));
    assert_eq!(w.get("x-a2a-extensions").map(|v| v.len()), Some(2));
    assert_eq!(m.get("content-type"), Some(&["text/plain".to_owned()][..]));
    assert!(w.get("missing").is_none());
}

#[test]
fn transport_and_request_id_from_text_keep_it() {
    assert_eq!(ra2a::types::agent::TransportProtocol::from("GRPC").as_str(), "GRPC");
    match ra2a::types::jsonrpc::RequestId::from("id-1") {
        ra2a::types::jsonrpc::RequestId::String(s) => assert_eq!(s, "id-1"),
        _ => panic!("expected a string id"),
    }
}

#[test]
fn json_error_text_follows_its_prefix() {
    let e = serde_json::from_str::<i32>("x").unwrap_err();
    let shown = e.to_string();
    let err = A2AError::Json(e);
    assert_eq!(err.display_text(), format!("JSON error: {shown}"));
    assert_eq!(err.to_jsonrpc_error().message, format!("JSON error: {shown}"));
}

#[test]
fn saving_a_push_config_leaves_others() {
    let mut store = ra2a::server::push::InMemoryPushNotificationConfigStore::new();
    let mut a = ra2a::types::push::PushNotificationConfig::new("https://a.example");
    a.id = Some("a".to_owned());
    let mut b = ra2a::types::push::PushNotificationConfig::new("https://b.example");
    b.id = Some("b".to_owned());
    store.save("t", &a).unwrap();
    store.save("t", &b).unwrap();
    let mut a2 = ra2a::types::push::PushNotificationConfig::new("https://a2.example");
    a2.id = Some("a".to_owned());
    store.save("t", &a2).unwrap();
    assert_eq!(store.get("t", "a").unwrap().url, "https://a2.example");
    assert_eq!(store.get("t", "b").unwrap().url, "https://b.example");
    assert_eq!(store.list("t").len(), 2);
}

#[test]
fn default_push_sender_waits_thirty_seconds() {
    let c = HttpPushSenderConfig::default();
    assert_eq!(c.timeout, std::time::Duration::from_secs(30));
    assert!(!c.fail_on_error);
}

#[test]
fn push_response_status_decides_the_outcome() {
    assert!(push_response_result(200, "200 OK", "").is_ok());
    assert!(push_response_result(204, "204 No Content", "").is_ok());
    match push_response_result(404, "404 Not Found", "no such hook") {
        Err(A2AError::Internal(m)) => assert_eq!(m, "Push notification failed with status 404 Not Found: no such hook"),
        _ => panic!("expected an internal error"),
    }
    assert!(push_response_result(300, "300 Multiple Choices", "").is_err());
}

#[test]
fn authorization_values_are_checked_as_header_values() {
    assert_eq!(checked_notification_authorization(&None, None).ok(), Some(None));
    assert_eq!(
        checked_notification_authorization(&None, Some("tok")).ok(),
        Some(Some("Bearer tok".to_owned()))
    );
    match checked_notification_authorization(&None, Some("bad\ntoken")) {
        Err(A2AError::InvalidConfig(m)) => assert_eq!(m, "failed to parse header value"),
        _ => panic!("expected a configuration error"),
    }
    assert!(checked_notification_authorization(&None, Some("t\u{e9}st\tok")).is_ok());
}
