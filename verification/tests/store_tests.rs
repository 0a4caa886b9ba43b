use ra2a::error::A2AError;
use ra2a::server::handler::{
    apply_history_length, check_cancelable, check_push_support, check_subscribable, decide_event,
    decide_on_close, get_task_reply, is_non_blocking, list_push_configs_reply, prepare_request,
    should_interrupt_non_streaming, task_or_placeholder, EventOutcome,
};
use ra2a::server::task_manager::TaskManager;
use ra2a::server::task_store::{InMemoryTaskStore, TaskVersion};
use ra2a::types::event::{SendMessageResponse, StreamResponse, TaskStatusUpdateEvent};
use ra2a::types::id::TaskId;
use ra2a::types::message::Message;
use ra2a::types::request::ListTasksRequest;
use ra2a::types::push::PushNotificationConfig;
use ra2a::types::request::SendMessageRequest;
use ra2a::types::task::{Task, TaskState, TaskStatus};

#[test]
fn test_create_task() {
    let mut manager = TaskManager::default();
    let task = manager.create_task();

    assert!(!task.id.is_empty());
    assert_eq!(task.status.state, TaskState::Submitted);
}

#[test]
fn task_manager_test_get_task() {
    let mut manager = TaskManager::default();
    let task = manager.create_task();
    let task_id = task.id.as_str().to_string();

    let retrieved = manager.get_task(&task_id);
    assert!(retrieved.is_some());
    assert_eq!(retrieved.unwrap().id.as_str(), task_id);
}

#[test]
fn task_manager_test_cancel_task() {
    let mut manager = TaskManager::default();
    let task = manager.create_task();
    let task_id = task.id.as_str().to_string();

    let canceled = manager.cancel_task(&task_id).unwrap();
    assert_eq!(canceled.status.state, TaskState::Canceled);
}

#[test]
fn test_task_eviction() {
    let mut manager = TaskManager::new(2);

    let _task1 = manager.create_task();
    let _task2 = manager.create_task();
    let _task3 = manager.create_task();

    assert_eq!(manager.task_count(), 2);
}

#[test]
fn manager_errors_and_updates() {
    let mut manager = TaskManager::new(10);
    manager.create_task_with_ids("t1", "c1");
    match manager.cancel_task("nope") {
        Err(A2AError::JsonRpc(e)) => {
            assert_eq!(e.code, -32001);
            assert_eq!(e.message, "Task 'nope' not found");
        }
        _ => panic!("expected task not found"),
    }
    manager.update_status("t1", TaskStatus::completed()).unwrap();
    match manager.cancel_task("t1") {
        Err(A2AError::JsonRpc(e)) => {
            assert_eq!(e.code, -32002);
            assert_eq!(e.message, "Task 't1' cannot be canceled");
        }
        _ => panic!("expected not cancelable"),
    }
    let t = manager.add_message("t1", Message::user_text("hi")).unwrap();
    assert_eq!(t.history.len(), 1);
    assert_eq!(manager.list_task_ids(), vec!["t1".to_string()]);
    assert!(manager.remove_task("t1").is_some());
    assert!(manager.remove_task("t1").is_none());
    assert_eq!(manager.task_count(), 0);
    manager.create_task_with_ids("a", "c");
    manager.clear();
    assert_eq!(manager.task_count(), 0);
}

#[test]
fn manager_with_zero_capacity_keeps_one() {
    let mut manager = TaskManager::new(0);
    manager.create_task_with_ids("a", "c");
    manager.create_task_with_ids("b", "c");
    assert_eq!(manager.list_task_ids(), vec!["b".to_string()]);
}

#[test]
fn test_inmemory_task_store() {
    let mut store = InMemoryTaskStore::new();
    let task = Task::new("task-1", "ctx-1");

    let ver = store.save(&task);
    assert!(ver.0 > 0);

    let retrieved = store.get("task-1");
    assert!(retrieved.is_some());
    let (t, v) = retrieved.unwrap();
    assert_eq!(t.id.as_str(), "task-1");
    assert_eq!(v, ver);

    store.delete("task-1");
    let deleted = store.get("task-1");
    assert!(deleted.is_none());
}

#[test]
fn test_inmemory_task_store_list() {
    let mut store = InMemoryTaskStore::new();
    let t1 = Task::new("task-1", "ctx-a");
    let t2 = Task::new("task-2", "ctx-a");
    let t3 = Task::new("task-3", "ctx-b");

    store.save(&t1);
    store.save(&t2);
    store.save(&t3);

    let resp = store.list(&ListTasksRequest::default());
    assert_eq!(resp.total_size, Some(3));

    let resp = store.list(&ListTasksRequest { context_id: Some("ctx-a".into()), ..Default::default() });
    assert_eq!(resp.total_size, Some(2));
}

#[test]
fn store_versions_increase_and_saves_replace() {
    let mut store = InMemoryTaskStore::new();
    let v1 = store.save(&Task::new("a", "c"));
    let v2 = store.save(&Task::new("a", "d"));
    assert_eq!(v1, TaskVersion(1));
    assert_eq!(v2, TaskVersion(2));
    let (t, v) = store.get("a").unwrap();
    assert_eq!(t.context_id.as_str(), "d");
    assert_eq!(v, v2);
    assert_eq!(store.list(&ListTasksRequest::default()).tasks.len(), 1);
    assert_eq!(TaskVersion::missing(), TaskVersion(0));
}

#[test]
fn store_list_pages_and_filters() {
    let mut store = InMemoryTaskStore::new();
    for i in 0..5 {
        let mut t = Task::new(&format!("t{i}"), "ctx");
        if i % 2 == 0 {
            t.status = TaskStatus::completed();
        }
        store.save(&t);
    }
    let req = ListTasksRequest { page_size: Some(2), ..Default::default() };
    let resp = store.list(&req);
    assert_eq!(resp.tasks.len(), 2);
    assert_eq!(resp.total_size, Some(5));
    assert_eq!(resp.page_size, Some(2));
    assert_eq!(resp.next_page_token, Some("2".to_string()));
    let req = ListTasksRequest { page_size: Some(2), page_token: Some("4".into()), ..Default::default() };
    let resp = store.list(&req);
    assert_eq!(resp.tasks.len(), 1);
    assert_eq!(resp.tasks[0].id.as_str(), "t4");
    assert_eq!(resp.next_page_token, None);
    let req = ListTasksRequest { page_token: Some("junk".into()), page_size: Some(500), ..Default::default() };
    let resp = store.list(&req);
    assert_eq!(resp.page_size, Some(100));
    assert_eq!(resp.tasks.len(), 5);
    let req = ListTasksRequest { status: Some(TaskState::Completed), ..Default::default() };
    assert_eq!(store.list(&req).total_size, Some(3));
}

#[test]
fn history_limits() {
    let mut t = Task::new("t", "c");
    for i in 0..4 {
        t.add_message(Message::user_text(&format!("m{i}")));
    }
    let mut a = t.clone();
    apply_history_length(&mut a, Some(3));
    assert_eq!(a.history.len(), 3);
    let mut b = t.clone();
    apply_history_length(&mut b, Some(0));
    assert!(b.history.is_empty());
    let mut c = t.clone();
    apply_history_length(&mut c, None);
    assert_eq!(c.history.len(), 4);
    let r = get_task_reply("x", None, None);
    assert!(matches!(r, Err(A2AError::TaskNotFound(ref s)) if s == "x"));
}

#[test]
fn prepare_request_resolves_ids() {
    let msg = Message::user_text("hi").with_task_id(TaskId::from_string("t1"));
    let req = SendMessageRequest::new(msg);
    match prepare_request(&req, None) {
        Err(A2AError::TaskNotFound(t)) => assert_eq!(t, "t1"),
        _ => panic!("expected task not found"),
    }
    let stored = Task::new("t1", "c9");
    let msg = Message::user_text("hi").with_task_id(TaskId::from_string("t1"));
    let p = prepare_request(&SendMessageRequest::new(msg), Some(stored)).unwrap();
    assert_eq!(p.context.task_id, "t1");
    assert_eq!(p.context.context_id, "c9");
    let mut done = Task::new("t1", "c9");
    done.status = TaskStatus::completed();
    let msg = Message::user_text("hi").with_task_id(TaskId::from_string("t1"));
    match prepare_request(&SendMessageRequest::new(msg), Some(done)) {
        Err(A2AError::InvalidParams(m)) => assert_eq!(m, "Task t1 is in terminal state: Completed"),
        _ => panic!("expected terminal state error"),
    }
    let p = prepare_request(&SendMessageRequest::new(Message::user_text("x").with_context_id("cx")), None).unwrap();
    assert_eq!(p.context.context_id, "cx");
    assert_eq!(p.context.task_id.len(), 36);
    let mut empty = Message::user(vec![]);
    match prepare_request(&SendMessageRequest::new(empty), None) {
        Err(A2AError::InvalidParams(m)) => assert_eq!(m, "message parts is required"),
        _ => panic!("expected parts error"),
    }
    empty = Message::user_text("x");
    empty.message_id = ra2a::types::id::MessageId::from_string("");
    match prepare_request(&SendMessageRequest::new(empty), None) {
        Err(A2AError::InvalidParams(m)) => assert_eq!(m, "message ID is required"),
        _ => panic!("expected id error"),
    }
}

#[test]
fn event_decisions() {
    let working = StreamResponse::StatusUpdate(TaskStatusUpdateEvent::new("t", "c", TaskStatus::working()));
    assert!(should_interrupt_non_streaming(false, &working).is_none());
    assert_eq!(should_interrupt_non_streaming(true, &working), Some(("t".to_string(), true)));
    let auth = StreamResponse::StatusUpdate(TaskStatusUpdateEvent::new("t", "c", TaskStatus::new(TaskState::AuthRequired)));
    assert!(should_interrupt_non_streaming(false, &auth).is_some());
    assert!(should_interrupt_non_streaming(true, &StreamResponse::Message(Message::user_text("m"))).is_none());
    match decide_event(working, false) {
        EventOutcome::Continue(_) => {}
        _ => panic!("expected continue"),
    }
    let done = StreamResponse::StatusUpdate(TaskStatusUpdateEvent::new("t", "c", TaskStatus::completed()));
    match decide_event(done, false) {
        EventOutcome::ReplyWithStoredTask(t) => assert_eq!(t, "t"),
        _ => panic!("expected stored reply"),
    }
    match decide_event(StreamResponse::Message(Message::user_text("m")), false) {
        EventOutcome::Reply(SendMessageResponse::Message(_)) => {}
        _ => panic!("expected message reply"),
    }
    match decide_on_close(None) {
        EventOutcome::Fail(A2AError::Other(m)) => assert_eq!(m, "Event queue closed unexpectedly"),
        _ => panic!("expected failure"),
    }
    let p = task_or_placeholder(None, "z");
    assert_eq!(p.id.as_str(), "z");
    assert_eq!(p.context_id.as_str(), "");
    assert!(!is_non_blocking(&None));
}

#[test]
fn cancel_subscribe_and_push_checks() {
    let t = Task::new("t", "c");
    assert!(check_cancelable("t", &Some(t.clone())).is_ok());
    assert!(matches!(check_cancelable("t", &None), Err(A2AError::TaskNotFound(_))));
    let mut done = Task::new("t", "c");
    done.status = TaskStatus::failed("boom");
    assert!(matches!(check_cancelable("t", &Some(done.clone())), Err(A2AError::TaskNotCancelable(_))));
    assert!(matches!(check_subscribable("t", &Some(t.clone()), false), Err(A2AError::TaskNotFound(_))));
    assert!(check_subscribable("t", &Some(t), true).is_ok());
    assert!(matches!(check_subscribable("t", &Some(done), true), Err(A2AError::InvalidParams(_))));
    assert!(matches!(check_push_support(false, "t", true), Err(A2AError::PushNotificationNotSupported)));
    assert!(matches!(check_push_support(true, "t", false), Err(A2AError::TaskNotFound(_))));
    assert!(check_push_support(true, "t", true).is_ok());
    let mut c = PushNotificationConfig::new("https://a");
    c.id = Some("x".into());
    let r = list_push_configs_reply(&None, "t", vec![c, PushNotificationConfig::new("https://b")]);
    assert_eq!(r.configs.len(), 2);
    assert_eq!(r.configs[0].id, Some("x".to_string()));
    assert_eq!(r.configs[1].id, Some("1".to_string()));
}
