use std::collections::HashMap;

use ra2a::error::{A2AError, JsonRpcError, JsonRpcErrorCode, ServerError};
use ra2a::types::id::{MessageId, TaskId};
use ra2a::types::jsonrpc::{JsonRpcErrorResponse, JsonRpcRequest, JsonRpcResponse, MessageSendParams, RequestId};
use ra2a::types::message::{Message, Role};
use ra2a::types::oauth::{ClientCredentialsOAuthFlow, OAuthFlows};
use ra2a::types::part::Part;
use ra2a::types::task::{Task, TaskState};
use ra2a::types::extensions::{ExtensionContext, ExtensionDeclaration};
use ra2a::types::agent::{AgentCard, AgentInterface, AgentSkill, TransportProtocol};

#[test]
fn random_ids_are_unique() {
    let a = TaskId::random();
    let b = TaskId::random();
    assert_ne!(a, b);
}

#[test]
fn type_safety() {
    let task_id = TaskId::from_string("abc");
    let msg_id = MessageId::from_string("abc");
    assert_eq!(task_id.as_str(), msg_id.as_str());
}

#[test]
fn test_request_id_from_string() {
    let id: RequestId = "test-123".into();
    assert_eq!(id, RequestId::String("test-123".to_string()));
}

#[test]
fn test_request_id_from_number() {
    let id: RequestId = 42i64.into();
    assert_eq!(id, RequestId::Number(42));
}

#[test]
fn test_send_message_request() {
    let message = Message::new(Role::User, vec![Part::text("Hello")]);
    let params = MessageSendParams::new(message);
    let request: JsonRpcRequest<MessageSendParams> = JsonRpcRequest::new("message/send", params);

    assert_eq!(request.method, "message/send");
    assert_eq!(request.jsonrpc, "2.0");
}

#[test]
fn test_a2a_response_is_error() {
    let error = JsonRpcError::task_not_found("test-123");
    let response: JsonRpcResponse<serde_json::Value> =
        JsonRpcResponse::Error(JsonRpcErrorResponse::new(None, error));
    assert!(response.is_error());
    assert!(!response.is_success());
}

#[test]
fn test_oauth_flows_creation() {
    let mut scopes = HashMap::new();
    scopes.insert("read".to_string(), "Read access".to_string());

    let flow = ClientCredentialsOAuthFlow::new("https://auth.example.com/token", scopes);
    let flows = OAuthFlows::client_credentials(flow);

    assert!(flows.client_credentials.is_some());
    assert!(flows.authorization_code.is_none());
}

#[test]
fn task_state_terminal() {
    assert!(TaskState::Completed.is_terminal());
    assert!(TaskState::Failed.is_terminal());
    assert!(TaskState::Canceled.is_terminal());
    assert!(TaskState::Rejected.is_terminal());
    assert!(!TaskState::Working.is_terminal());
    assert!(!TaskState::InputRequired.is_terminal());
}

#[test]
fn task_state_interrupted() {
    assert!(TaskState::InputRequired.is_interrupted());
    assert!(TaskState::AuthRequired.is_interrupted());
    assert!(!TaskState::Working.is_interrupted());
}

#[test]
fn task_state_name_round_trip() {
    for s in [
        TaskState::Submitted,
        TaskState::Working,
        TaskState::Completed,
        TaskState::Failed,
        TaskState::Canceled,
        TaskState::InputRequired,
        TaskState::Rejected,
        TaskState::AuthRequired,
    ] {
        assert_eq!(TaskState::from_state_str(s.as_str()), s);
    }
    assert_eq!(TaskState::from_state_str("bogus"), TaskState::Unspecified);
    assert_eq!(TaskState::Working.as_str(), "TASK_STATE_WORKING");
}

#[test]
fn test_error_code_conversion() {
    assert_eq!(JsonRpcErrorCode::from(-32700), JsonRpcErrorCode::ParseError);
    assert_eq!(JsonRpcErrorCode::from(-32001), JsonRpcErrorCode::TaskNotFound);
}

#[test]
fn error_code_round_trip_for_every_code() {
    for c in [
        JsonRpcErrorCode::ParseError,
        JsonRpcErrorCode::InvalidRequest,
        JsonRpcErrorCode::MethodNotFound,
        JsonRpcErrorCode::InvalidParams,
        JsonRpcErrorCode::InternalError,
        JsonRpcErrorCode::TaskNotFound,
        JsonRpcErrorCode::TaskNotCancelable,
        JsonRpcErrorCode::PushNotificationNotSupported,
        JsonRpcErrorCode::UnsupportedOperation,
        JsonRpcErrorCode::ContentTypeNotSupported,
        JsonRpcErrorCode::InvalidAgentResponse,
        JsonRpcErrorCode::AuthenticatedExtendedCardNotConfigured,
    ] {
        assert_eq!(JsonRpcErrorCode::from(c.code()), c);
    }
    assert_eq!(JsonRpcErrorCode::from(12345), JsonRpcErrorCode::InternalError);
    assert_eq!(JsonRpcErrorCode::InvalidParams.code(), -32602);
}

#[test]
fn test_method_not_found() {
    let error = JsonRpcError::method_not_found("unknown/method");
    assert_eq!(error.code, JsonRpcErrorCode::MethodNotFound.code());
    assert_eq!(error.message, "Method 'unknown/method' not found");
}

#[test]
fn test_client_http_error() {
    let error = A2AError::client_http(404, "Not Found");
    assert!(error.is_client_error());
    assert!(!error.is_timeout());
    assert_eq!(error.display_text(), "HTTP 404: Not Found");
}

#[test]
fn test_client_jsonrpc_error() {
    let error = A2AError::client_jsonrpc(-32001, "Task not found");
    assert!(error.is_client_error());
    assert_eq!(error.jsonrpc_code(), Some(-32001));
}

#[test]
fn test_client_timeout_error() {
    let error = A2AError::client_timeout(30, "Request timed out");
    assert!(error.is_timeout());
    assert!(error.is_client_error());
}

#[test]
fn test_server_error() {
    let server_error = ServerError::from_code(JsonRpcErrorCode::TaskNotFound);
    assert_eq!(server_error.error.code, -32001);

    let server_error = ServerError::with_message(JsonRpcErrorCode::InternalError, "Custom error");
    assert_eq!(server_error.error.message, "Custom error");
}

#[test]
fn error_texts_and_jsonrpc_reports() {
    let e = A2AError::JsonRpc(JsonRpcError::task_not_found("t1"));
    assert_eq!(e.display_text(), "JSON-RPC error: [-32001] Task 't1' not found");
    assert_eq!(
        A2AError::client_jsonrpc(-32602, "bad").display_text(),
        "JSON-RPC error [-32602]: bad"
    );
    assert_eq!(
        A2AError::client_timeout(30, "slow").display_text(),
        "Request timed out after 30s: slow"
    );
    let r = A2AError::TaskNotCancelable("t9".to_string()).to_jsonrpc_error();
    assert_eq!(r.code, -32002);
    assert_eq!(r.message, "Task 't9' cannot be canceled");
    let r = A2AError::InvalidParams("oops".to_string()).to_jsonrpc_error();
    assert_eq!(r.code, -32602);
    assert_eq!(r.message, "oops");
    let r = A2AError::Connection("down".to_string()).to_jsonrpc_error();
    assert_eq!(r.code, -32603);
    assert_eq!(r.message, "Connection error: down");
    let r = A2AError::PushNotificationNotSupported.to_jsonrpc_error();
    assert_eq!(r.code, -32003);
    assert_eq!(r.message, "Push Notification is not supported");
    let r = A2AError::ExtendedCardNotConfigured.to_jsonrpc_error();
    assert_eq!(r.code, -32007);
}

#[test]
fn jsonrpc_error_constructors() {
    assert_eq!(JsonRpcError::parse_error().code, -32700);
    assert_eq!(JsonRpcError::parse_error().message, "Invalid JSON payload");
    assert_eq!(JsonRpcError::invalid_request("x").code, -32600);
    assert_eq!(JsonRpcError::internal_error("x").code, -32603);
    assert_eq!(JsonRpcError::task_not_cancelable("t").message, "Task 't' cannot be canceled");
    assert_eq!(JsonRpcError::unsupported_operation("op").message, "Operation 'op' is not supported");
    assert_eq!(JsonRpcError::task_not_found("t").display_text(), "[-32001] Task 't' not found");
}

#[test]
fn test_extension_declaration() {
    let ext = ExtensionDeclaration::new("urn:test:extension").required();
    assert!(ext.required);
    assert_eq!(ext.uri, "urn:test:extension");
}

#[test]
fn test_extension_context() {
    let mut ctx = ExtensionContext::new();
    ctx.add_extension("urn:test:ext1");
    ctx.add_extension("urn:test:ext2");

    assert!(ctx.has_extension("urn:test:ext1"));
    assert!(!ctx.has_extension("urn:test:ext3"));
}

#[test]
fn transport_protocol_names() {
    assert!(TransportProtocol::new("JSONRPC").is_jsonrpc());
    assert!(TransportProtocol::new("GRPC").is_grpc());
    assert!(TransportProtocol::new("HTTP+JSON").is_http_json());
    assert!(!TransportProtocol::new("jsonrpc").is_jsonrpc());
    let iface = AgentInterface::new("http://a", TransportProtocol::new("GRPC"));
    assert_eq!(iface.protocol_version, "1.0");
}

#[test]
fn agent_card_lookups() {
    let mut card = AgentCard::new(
        "agent",
        "desc",
        vec![
            AgentInterface::new("http://a", TransportProtocol::new("JSONRPC")),
            AgentInterface::new("http://b", TransportProtocol::new("GRPC")),
        ],
    );
    assert_eq!(card.version, "1.0.0");
    assert_eq!(card.default_input_modes, vec!["text/plain".to_string()]);
    assert!(!card.supports_streaming());
    assert!(!card.supports_push_notifications());
    card.capabilities.push_notifications = Some(true);
    assert!(card.supports_push_notifications());
    card.skills.push(AgentSkill::new("s1", "Skill", "does", vec!["t".to_string()]));
    assert_eq!(card.find_skill("s1").unwrap().name, "Skill");
    assert!(card.find_skill("s2").is_none());
    assert_eq!(card.preferred_interface().unwrap().url, "http://a");
    assert_eq!(card.find_interface(&TransportProtocol::new("GRPC")).unwrap().url, "http://b");
    assert!(card.find_interface(&TransportProtocol::new("HTTP+JSON")).is_none());
}

#[test]
fn task_new_is_submitted_and_empty() {
    let t = Task::new("task-1", "ctx-1");
    assert_eq!(t.id.as_str(), "task-1");
    assert_eq!(t.context_id.as_str(), "ctx-1");
    assert_eq!(t.status.state, TaskState::Submitted);
    assert!(t.history.is_empty());
    assert!(t.artifacts.is_empty());
}

#[test]
fn message_text_content_joins_text_parts() {
    let m = Message::new(Role::User, vec![Part::text("a"), Part::url("http://x", "text/html"), Part::text("b")]);
    assert_eq!(m.text_content(), Some("a\nb".to_string()));
    let m = Message::new(Role::Agent, vec![Part::url("http://x", "text/html")]);
    assert_eq!(m.text_content(), None);
}

#[test]
fn random_ids_carry_their_uuid_version() {
    let t = TaskId::random();
    let chars: Vec<char> = t.as_str().chars().collect();
    assert_eq!(chars.len(), 36);
    assert_eq!(chars[14], '7');
    assert!(matches!(chars[19], '8' | '9' | 'a' | 'b'));
    match RequestId::default() {
        RequestId::String(s) => {
            let chars: Vec<char> = s.chars().collect();
            assert_eq!(chars.len(), 36);
            assert_eq!(chars[14], '4');
            assert!(matches!(chars[19], '8' | '9' | 'a' | 'b'));
        }
        _ => panic!("expected a text id"),
    }
}

#[test]
fn new_statuses_carry_a_utc_timestamp() {
    let s = ra2a::types::task::TaskStatus::working();
    let ts = s.timestamp.expect("a timestamp");
    assert!(ts.chars().count() >= 25);
    assert!(ts.ends_with("+00:00"));
    assert!(ts.contains('T'));
    let now = ra2a::task_helpers::now_iso8601();
    assert!(now.ends_with("+00:00"));
}
