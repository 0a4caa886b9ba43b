use ra2a::error::A2AError;
use ra2a::server::app::ServerConfig;
use ra2a::server::call_context::{AuthenticatedUser, ServerCallContext, UnauthenticatedUser, User};
use ra2a::server::context_builder::{ExtendedRequestContext, SimpleExtendedRequestContextBuilder};
use ra2a::server::dispatch::{reply_of, route_rpc, route_stream, RpcMethod, StreamMethod};
use ra2a::server::id_generator::{
    CompositeGenerator, IDGenerator, IDGeneratorContext, SequentialGenerator, UUIDGenerator,
};
use ra2a::server::middleware::{CallContext, RequestMeta};
use ra2a::server::push::{push_headers, validate_push_config, InMemoryPushNotificationConfigStore};
use ra2a::server::rest::{rest_status, tenant_from_header, RestErrorResponse};
use ra2a::server::result_aggregator::{AgentEvent, ResultAggregator};
use ra2a::server::streaming::{sse_event_name, SseStreamBuilder, StreamingConfig, TerminatingEventStream};
use ra2a::task_helpers::{apply_history_length, are_modalities_compatible, build_text_artifact, get_message_text};
use ra2a::types::event::{StreamResponse, TaskStatusUpdateEvent};
use ra2a::types::jsonrpc::{JsonRpcResponse, MessageSendParams, RequestId};
use ra2a::types::message::Message;
use ra2a::types::part::Part;
use ra2a::types::push::{AuthenticationInfo, PushNotificationConfig};
use ra2a::types::task::{Task, TaskState, TaskStatus};
use ra2a::error::JsonRpcError;

#[test]
fn test_server_config_default() {
    let config = ServerConfig::default();
    assert_eq!(config.host, "0.0.0.0");
    assert_eq!(config.port, 8080);
    assert!(config.enable_cors);
}

#[test]
fn test_server_config_builder() {
    let config = ServerConfig::new().host("127.0.0.1").port(3000).cors(false);

    assert_eq!(config.host, "127.0.0.1");
    assert_eq!(config.port, 3000);
    assert!(!config.enable_cors);
    assert_eq!(config.bind_address(), "127.0.0.1:3000");
}

#[test]
fn test_unauthenticated_user() {
    let user = UnauthenticatedUser;
    assert!(!user.is_authenticated());
    assert_eq!(user.user_name(), "anonymous");
    assert!(user.user_id().is_none());
}

#[test]
fn test_authenticated_user() {
    let user = AuthenticatedUser::new("user-123", "John Doe");
    assert!(user.is_authenticated());
    assert_eq!(user.user_name(), "John Doe");
    assert_eq!(user.user_id(), Some("user-123"));
}

#[test]
fn test_server_call_context_default() {
    let ctx = ServerCallContext::new();
    assert!(!ctx.is_authenticated());
    assert_eq!(ctx.user_name(), "anonymous");
    assert!(ctx.requested_extensions.is_empty());
    assert!(ctx.activated_extensions.is_empty());
}

#[test]
fn test_server_call_context_with_user() {
    let ctx = ServerCallContext::with_user(&AuthenticatedUser::new("u1", "Alice"));
    assert!(ctx.is_authenticated());
    assert_eq!(ctx.user_name(), "Alice");
}

#[test]
fn test_extensions() {
    let mut ctx = ServerCallContext::new();
    ctx.add_requested_extension("ext1");
    ctx.add_requested_extension("ext2");

    assert!(ctx.is_extension_requested("ext1"));
    assert!(!ctx.is_extension_requested("ext3"));

    ctx.activate_extension("ext1");
    assert!(ctx.is_extension_activated("ext1"));
    assert!(!ctx.is_extension_activated("ext2"));
}

#[test]
fn extensions_are_listed_once() {
    let mut ctx = ServerCallContext::new();
    ctx.add_requested_extension("ext1");
    ctx.add_requested_extension("ext1");
    assert_eq!(ctx.requested_extensions.len(), 1);
    ctx.set_requested_extensions(vec!["a".to_string(), "b".to_string(), "a".to_string()]);
    assert_eq!(ctx.requested_extensions.len(), 2);
    assert!(ctx.is_extension_requested("b"));
}

#[test]
fn call_context_state_round_trip() {
    let mut ctx = ServerCallContext::new();
    ctx.set_state("key1", serde_json::Value::String("value1".to_string()));
    assert_eq!(ctx.get_state("key1"), Some(&serde_json::Value::String("value1".to_string())));
    assert!(ctx.get_state("key2").is_none());
}

#[test]
fn test_uuid_generator() {
    let mut generator = UUIDGenerator::new();
    let ctx = IDGeneratorContext::new();

    let id1 = generator.generate(&ctx);
    let id2 = generator.generate(&ctx);

    assert_ne!(id1, id2);
    assert_eq!(id1.len(), 36);
}

#[test]
fn test_uuid_generator_with_prefix() {
    let mut generator = UUIDGenerator::with_prefix("task");
    let ctx = IDGeneratorContext::new();

    let id = generator.generate(&ctx);
    assert!(id.starts_with("task-"));
}

#[test]
fn test_context_prefix_overrides() {
    let mut generator = UUIDGenerator::with_prefix("default");
    let ctx = IDGeneratorContext::new().prefix("override");

    let id = generator.generate(&ctx);
    assert!(id.starts_with("override-"));
}

#[test]
fn test_sequential_generator() {
    let mut generator = SequentialGenerator::new("seq");
    let ctx = IDGeneratorContext::new();

    assert_eq!(generator.generate(&ctx), "seq-1");
    assert_eq!(generator.generate(&ctx), "seq-2");
    assert_eq!(generator.generate(&ctx), "seq-3");
}

#[test]
fn test_sequential_generator_starting_at() {
    let mut generator = SequentialGenerator::starting_at("test", 100);
    let ctx = IDGeneratorContext::new();

    assert_eq!(generator.generate(&ctx), "test-100");
    assert_eq!(generator.generate(&ctx), "test-101");
}

#[test]
fn sequential_generator_wraps_at_the_top() {
    let mut generator = SequentialGenerator::starting_at("w", u64::MAX);
    let ctx = IDGeneratorContext::new();
    assert_eq!(generator.generate(&ctx), format!("w-{}", u64::MAX));
    assert_eq!(generator.generate(&ctx), "w-0");
}

#[test]
fn test_composite_generator() {
    let mut generator = CompositeGenerator::new(
        UUIDGenerator::with_prefix("task"),
        UUIDGenerator::with_prefix("ctx"),
    );
    let ctx = IDGeneratorContext::new();

    let task_id = generator.generate_task_id(&ctx);
    let context_id = generator.generate_context_id(&ctx);

    assert!(task_id.starts_with("task-"));
    assert!(context_id.starts_with("ctx-"));
}

#[test]
fn test_streaming_config_default() {
    let config = StreamingConfig::default();
    assert_eq!(config.buffer_size, 100);
    assert!(config.send_initial_state);
}

#[test]
fn test_event_is_final() {
    let final_event = AgentEvent::StatusUpdate(TaskStatusUpdateEvent::new(
        "t1",
        "c1",
        TaskStatus::completed(),
    ));
    assert!(final_event.is_final());

    let non_final =
        AgentEvent::StatusUpdate(TaskStatusUpdateEvent::new("t1", "c1", TaskStatus::working()));
    assert!(!non_final.is_final());
}

#[test]
fn test_consume_all_single_event() {
    let mut aggregator = ResultAggregator::create("task-1", "ctx-1");
    let events = vec![AgentEvent::StatusUpdate(TaskStatusUpdateEvent::new(
        "task-1",
        "ctx-1",
        TaskStatus::completed(),
    ))];
    for e in &events {
        if aggregator.consume_event(e, false) {
            break;
        }
    }
    let task = aggregator.into_task();
    assert_eq!(task.status.state, TaskState::Completed);
}

#[test]
fn test_consume_all_multiple_events() {
    let mut aggregator = ResultAggregator::create("task-1", "ctx-1");
    let events = vec![
        AgentEvent::StatusUpdate(TaskStatusUpdateEvent::new("task-1", "ctx-1", TaskStatus::working())),
        AgentEvent::Message(Message::agent_text("Working on it...")),
        AgentEvent::StatusUpdate(TaskStatusUpdateEvent::new("task-1", "ctx-1", TaskStatus::completed())),
    ];
    for e in &events {
        if aggregator.consume_event(e, false) {
            break;
        }
    }
    let task = aggregator.into_task();
    assert_eq!(task.status.state, TaskState::Completed);
    assert!(!task.history.is_empty());
}

#[test]
fn test_consume_until_interrupt() {
    let mut aggregator = ResultAggregator::create("task-1", "ctx-1");
    let events = vec![
        AgentEvent::StatusUpdate(TaskStatusUpdateEvent::new("task-1", "ctx-1", TaskStatus::working())),
        AgentEvent::StatusUpdate(TaskStatusUpdateEvent::new(
            "task-1",
            "ctx-1",
            TaskStatus::new(TaskState::InputRequired),
        )),
    ];
    let mut is_interrupt = false;
    for e in &events {
        if aggregator.consume_event(e, true) {
            is_interrupt = e.is_interrupt();
            break;
        }
    }
    assert!(is_interrupt);
}

#[test]
fn aggregator_appends_to_artifacts() {
    let mut aggregator = ResultAggregator::create("t", "c");
    let art = build_text_artifact("one", "a1");
    let ev = ra2a::types::event::TaskArtifactUpdateEvent::new("t", "c", art);
    aggregator.process_event(&AgentEvent::ArtifactUpdate(ev)).unwrap();
    let mut more = ra2a::types::event::TaskArtifactUpdateEvent::new("t", "c", build_text_artifact("two", "a1"));
    more.append = true;
    aggregator.process_event(&AgentEvent::ArtifactUpdate(more)).unwrap();
    let task = aggregator.into_task();
    assert_eq!(task.artifacts.len(), 1);
    assert_eq!(task.artifacts[0].parts.len(), 2);
}

#[test]
fn test_sse_stream_builder() {
    let builder = SseStreamBuilder::new()
        .request_id(RequestId::String("test-1".to_string()))
        .initial_event(StreamResponse::Task(Task::new("task-1", "ctx-1")));

    assert!(builder.request_id.is_some());
    assert_eq!(builder.initial_events.len(), 1);
}

#[test]
fn sse_event_names() {
    assert_eq!(sse_event_name(&StreamResponse::Task(Task::new("t", "c"))), "task");
    assert_eq!(
        sse_event_name(&StreamResponse::StatusUpdate(TaskStatusUpdateEvent::new("t", "c", TaskStatus::working()))),
        "status-update"
    );
    assert_eq!(sse_event_name(&StreamResponse::Message(Message::user_text("x"))), "message");
}

#[test]
fn terminating_stream_ends_after_final_update() {
    let mut s = TerminatingEventStream::new(());
    let working = StreamResponse::StatusUpdate(TaskStatusUpdateEvent::new("t", "c", TaskStatus::working()));
    assert!(s.on_item(Some(working)).is_some());
    assert!(!s.terminated());
    let done = StreamResponse::StatusUpdate(TaskStatusUpdateEvent::new("t", "c", TaskStatus::completed()));
    assert!(s.on_item(Some(done)).is_some());
    assert!(s.terminated());
    let later = StreamResponse::Task(Task::new("t", "c"));
    assert!(s.on_item(Some(later)).is_none());
}

#[test]
fn test_context_extensions() {
    let message = Message::user_text("Test");
    let ctx = ExtendedRequestContext::create(message).with_extensions(vec!["urn:a2a:ext:test".to_string()]);

    assert!(ctx.has_extension("urn:a2a:ext:test"));
    assert!(!ctx.has_extension("urn:a2a:ext:other"));
}

#[test]
fn test_simple_builder_new_task() {
    let builder = SimpleExtendedRequestContextBuilder::new();
    let message = Message::user_text("Hello");
    let params = MessageSendParams::new(message);

    let ctx = builder.build(&params, None).unwrap();

    assert!(!ctx.task_id.is_empty());
    assert!(!ctx.context_id.is_empty());
}

#[test]
fn test_simple_builder_existing_task() {
    let builder = SimpleExtendedRequestContextBuilder::new();
    let existing_task = Task::new("task-123", "ctx-456");
    let message = Message::user_text("Continue");
    let params = MessageSendParams::new(message);

    let ctx = builder.build(&params, Some(&existing_task)).unwrap();

    assert_eq!(ctx.task_id, "task-123");
    assert_eq!(ctx.context_id, "ctx-456");
}

#[test]
fn test_simple_builder_message_ids_override() {
    let builder = SimpleExtendedRequestContextBuilder::new();
    let existing_task = Task::new("task-123", "ctx-456");
    let message = Message::user_text("Override")
        .with_task_id(ra2a::types::id::TaskId::from_string("new-task"))
        .with_context_id("new-ctx");
    let params = MessageSendParams::new(message);

    let ctx = builder.build(&params, Some(&existing_task)).unwrap();

    assert_eq!(ctx.task_id, "new-task");
    assert_eq!(ctx.context_id, "new-ctx");
}

#[test]
fn user_input_joins_text_parts() {
    let message = Message::user(vec![Part::text("a"), Part::text("b")]);
    let ctx = ExtendedRequestContext::new("t", "c", message);
    assert_eq!(ctx.get_user_input(), "a\nb");
}

#[test]
fn test_rest_error_response() {
    let error = RestErrorResponse::new(-32001, "Task not found");
    assert_eq!(error.code, -32001);
    assert_eq!(error.message, "Task not found");
}

#[test]
fn test_rest_error_from_a2a_error() {
    let err = A2AError::JsonRpc(JsonRpcError::task_not_found("test-123"));
    let response = RestErrorResponse::from_error(&err);
    assert_eq!(response.code, -32001);
}

#[test]
fn rest_statuses() {
    assert_eq!(rest_status(-32700), 400);
    assert_eq!(rest_status(-32001), 404);
    assert_eq!(rest_status(-32002), 409);
    assert_eq!(rest_status(-32004), 501);
    assert_eq!(rest_status(-32603), 500);
    assert_eq!(tenant_from_header(Some("acme")), Some("acme".to_string()));
    assert_eq!(tenant_from_header(Some("")), None);
    assert_eq!(tenant_from_header(None), None);
}

#[test]
fn rpc_routing() {
    assert_eq!(route_rpc("message/send").unwrap(), RpcMethod::SendMessage);
    assert_eq!(route_rpc("tasks/cancel").unwrap(), RpcMethod::CancelTask);
    let e = route_rpc("message/stream").unwrap_err();
    assert_eq!(e.code, -32600);
    let e = route_rpc("nope").unwrap_err();
    assert_eq!(e.code, -32601);
    assert_eq!(e.message, "Method 'nope' not found");
    assert_eq!(route_stream("tasks/resubscribe").unwrap(), StreamMethod::Resubscribe);
    assert_eq!(route_stream("message/send").unwrap_err().code, -32601);
}

#[test]
fn request_meta_ignores_case() {
    let meta = RequestMeta::new(vec![
        ("Content-Type".to_string(), vec!["a".to_string()]),
        ("X-A2A-Extensions".to_string(), vec!["urn:one".to_string(), "urn:two".to_string()]),
    ]);
    assert_eq!(meta.get("content-type").unwrap(), &["a".to_string()][..]);
    assert_eq!(meta.get("CONTENT-TYPE").unwrap().len(), 1);
    assert!(meta.get("missing").is_none());
    let merged = meta.with(vec![("content-type".to_string(), vec!["b".to_string()])]);
    assert_eq!(merged.get("Content-Type").unwrap(), &["b".to_string()][..]);
    let mut ctx = CallContext::new("message/send", merged);
    assert_eq!(ctx.method(), "message/send");
    assert_eq!(ctx.requested_extension_uris(), vec!["urn:one".to_string(), "urn:two".to_string()]);
    assert!(ctx.is_extension_requested("urn:two"));
    ctx.activate_extension("urn:one");
    assert!(ctx.is_extension_active("urn:one"));
    assert!(!ctx.is_extension_active("urn:two"));
}

#[test]
fn push_config_validation() {
    assert!(validate_push_config(&PushNotificationConfig::new("https://cb")).is_ok());
    match validate_push_config(&PushNotificationConfig::new("")) {
        Err(A2AError::InvalidParams(m)) => assert_eq!(m, "push config URL cannot be empty"),
        _ => panic!("expected an invalid-params error"),
    }
    match validate_push_config(&PushNotificationConfig::new("ftp://x")) {
        Err(A2AError::InvalidParams(m)) => assert_eq!(m, "push config URL must be http or https"),
        _ => panic!("expected an invalid-params error"),
    }
}

#[test]
fn push_store_save_get_delete() {
    let mut store = InMemoryPushNotificationConfigStore::new();
    let saved = store.save("t1", &PushNotificationConfig::new("https://cb")).unwrap();
    let id = saved.id.clone().unwrap();
    assert_eq!(id.len(), 36);
    let got = store.get("t1", &id).unwrap();
    assert_eq!(got.url, "https://cb");
    let mut named = PushNotificationConfig::new("http://other");
    named.id = Some("cfg".to_string());
    store.save("t1", &named).unwrap();
    assert_eq!(store.list("t1").len(), 2);
    assert_eq!(store.list("t2").len(), 0);
    store.delete("t1", "cfg");
    assert!(store.get("t1", "cfg").is_err());
    assert_eq!(store.list("t1").len(), 1);
    store.delete_all("t1");
    assert!(store.list("t1").is_empty());
    match store.get("t1", &id) {
        Err(A2AError::InvalidParams(m)) => assert_eq!(m, "push config not found"),
        _ => panic!("expected not found"),
    }
}

#[test]
fn push_headers_from_config() {
    let mut c = PushNotificationConfig::new("https://cb");
    c.token = Some("tok".to_string());
    c.authentication = Some(AuthenticationInfo { scheme: "BEARER".to_string(), credentials: Some("abc".to_string()) });
    let h = push_headers(&c);
    assert_eq!(
        h,
        vec![
            ("X-A2A-Notification-Token".to_string(), "tok".to_string()),
            ("Authorization".to_string(), "Bearer abc".to_string())
        ]
    );
    c.token = Some(String::new());
    c.authentication = Some(AuthenticationInfo { scheme: "digest".to_string(), credentials: Some("abc".to_string()) });
    assert!(push_headers(&c).is_empty());
}

#[test]
fn test_are_modalities_compatible() {
    assert!(are_modalities_compatible(None, None));
    assert!(are_modalities_compatible(Some(&["text".to_string()]), None));
    let server = vec!["text".to_string(), "image".to_string()];
    let client = vec!["text".to_string()];
    assert!(are_modalities_compatible(Some(&server), Some(&client)));
    let server = vec!["image".to_string()];
    let client = vec!["text".to_string()];
    assert!(!are_modalities_compatible(Some(&server), Some(&client)));
}

#[test]
fn test_generate_id() {
    let id1 = ra2a::task_helpers::generate_id();
    let id2 = ra2a::task_helpers::generate_id();
    assert_ne!(id1, id2);
    assert_eq!(id1.len(), 36);
}

#[test]
fn test_now_iso8601() {
    let ts = ra2a::task_helpers::now_iso8601();
    assert!(ts.contains('T'));
    assert!(ts.len() > 20);
}

#[test]
fn history_helpers() {
    let mut t = Task::new("t", "c");
    for i in 0..5 {
        t.add_message(Message::user_text(&format!("m{i}")));
    }
    let t = apply_history_length(t, Some(2));
    assert_eq!(t.history.len(), 2);
    assert_eq!(get_message_text(&t.history[1], ","), "m4");
    let t = apply_history_length(t, Some(-1));
    assert!(t.history.is_empty());
    let m = Message::user(vec![Part::text("x"), Part::text("y")]);
    assert_eq!(get_message_text(&m, " | "), "x | y");
}

#[test]
fn replies_carry_the_request_id() {
    match reply_of(Some(RequestId::Number(7)), Ok::<u32, A2AError>(5)) {
        JsonRpcResponse::Success(s) => {
            assert_eq!(s.jsonrpc, "2.0");
            assert!(matches!(s.id, Some(RequestId::Number(7))));
            assert_eq!(s.result, 5);
        }
        JsonRpcResponse::Error(_) => panic!("expected a success"),
    }
    match reply_of::<u32>(Some(RequestId::String("r-1".to_owned())), Err(A2AError::TaskNotFound("t-9".to_owned()))) {
        JsonRpcResponse::Error(e) => {
            assert_eq!(e.jsonrpc, "2.0");
            assert!(matches!(&e.id, Some(RequestId::String(s)) if s == "r-1"));
            assert_eq!(e.error.code, -32001);
            assert_eq!(e.error.message, "Task 't-9' not found");
        }
        JsonRpcResponse::Success(_) => panic!("expected an error"),
    }
}

#[test]
fn terminating_stream_run_stops_at_the_first_final_update() {
    let mut s = TerminatingEventStream::new(());
    let items = vec![
        Some(StreamResponse::StatusUpdate(TaskStatusUpdateEvent::new("t", "c", TaskStatus::working()))),
        Some(StreamResponse::Task(Task::new("t", "c"))),
        Some(StreamResponse::StatusUpdate(TaskStatusUpdateEvent::new("t", "c", TaskStatus::failed("x")))),
        Some(StreamResponse::StatusUpdate(TaskStatusUpdateEvent::new("t", "c", TaskStatus::working()))),
        None,
    ];
    let out: Vec<bool> = items.into_iter().map(|i| s.on_item(i).is_some()).collect();
    assert_eq!(out, vec![true, true, true, false, false]);
    assert!(s.terminated());
}

#[test]
fn request_meta_with_nothing_keeps_entries() {
    let m = RequestMeta::new(vec![("A".to_owned(), vec!["1".to_owned()]), ("b".to_owned(), vec![])]);
    let w = m.with(vec![]);
    assert_eq!(w.iter().len(), 2);
    assert_eq!(w.get("a"), Some(&["1".to_owned()][..]));
    assert_eq!(w.get("B").map(|v| v.len()), Some(0));
    for (k, _) in m.iter() {
        assert!(m.get(k).is_some());
    }
}
