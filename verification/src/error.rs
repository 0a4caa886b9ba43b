//! Error types: JSON-RPC error codes and objects, the server error wrapper,
//! and the library's error enum.

use vstd::prelude::*;
use crate::text::{decimal, signed_decimal};

verus! {

/// An HTTP transport error of `reqwest`, carried through unchanged.
#[verifier::external_type_specification]
#[verifier::external_body]
pub struct ExReqwestError(reqwest::Error);

/// A JSON (de)serialization error of `serde_json`, carried through unchanged.
#[verifier::external_type_specification]
#[verifier::external_body]
pub struct ExJsonError(serde_json::Error);

/// A URL parsing error of `url`, carried through unchanged.
#[verifier::external_type_specification]
#[verifier::external_body]
pub struct ExUrlParseError(url::ParseError);

/// JSON-RPC 2.0 and protocol-specific error codes.
#[derive(Debug, Clone, Copy, PartialEq, Eq)]
pub enum JsonRpcErrorCode {
    ParseError,
    InvalidRequest,
    MethodNotFound,
    InvalidParams,
    InternalError,
    TaskNotFound,
    TaskNotCancelable,
    PushNotificationNotSupported,
    UnsupportedOperation,
    ContentTypeNotSupported,
    InvalidAgentResponse,
    AuthenticatedExtendedCardNotConfigured,
}

/// The numeric code of each error kind.
pub open spec fn code_value(c: JsonRpcErrorCode) -> i32 {
    match c {
        JsonRpcErrorCode::ParseError => -32700i32,
        JsonRpcErrorCode::InvalidRequest => -32600i32,
        JsonRpcErrorCode::MethodNotFound => -32601i32,
        JsonRpcErrorCode::InvalidParams => -32602i32,
        JsonRpcErrorCode::InternalError => -32603i32,
        JsonRpcErrorCode::TaskNotFound => -32001i32,
        JsonRpcErrorCode::TaskNotCancelable => -32002i32,
        JsonRpcErrorCode::PushNotificationNotSupported => -32003i32,
        JsonRpcErrorCode::UnsupportedOperation => -32004i32,
        JsonRpcErrorCode::ContentTypeNotSupported => -32005i32,
        JsonRpcErrorCode::InvalidAgentResponse => -32006i32,
        JsonRpcErrorCode::AuthenticatedExtendedCardNotConfigured => -32007i32,
    }
}

/// The error kind a numeric code names; unknown codes name `InternalError`.
pub open spec fn code_from_value(v: i32) -> JsonRpcErrorCode {
    if v == -32700 {
        JsonRpcErrorCode::ParseError
    } else if v == -32600 {
        JsonRpcErrorCode::InvalidRequest
    } else if v == -32601 {
        JsonRpcErrorCode::MethodNotFound
    } else if v == -32602 {
        JsonRpcErrorCode::InvalidParams
    } else if v == -32001 {
        JsonRpcErrorCode::TaskNotFound
    } else if v == -32002 {
        JsonRpcErrorCode::TaskNotCancelable
    } else if v == -32003 {
        JsonRpcErrorCode::PushNotificationNotSupported
    } else if v == -32004 {
        JsonRpcErrorCode::UnsupportedOperation
    } else if v == -32005 {
        JsonRpcErrorCode::ContentTypeNotSupported
    } else if v == -32006 {
        JsonRpcErrorCode::InvalidAgentResponse
    } else if v == -32007 {
        JsonRpcErrorCode::AuthenticatedExtendedCardNotConfigured
    } else {
        JsonRpcErrorCode::InternalError
    }
}

/// The default message of each error kind.
pub open spec fn default_message_of(c: JsonRpcErrorCode) -> Seq<char> {
    match c {
        JsonRpcErrorCode::ParseError => "Invalid JSON payload"@,
        JsonRpcErrorCode::InvalidRequest => "Request payload validation error"@,
        JsonRpcErrorCode::MethodNotFound => "Method not found"@,
        JsonRpcErrorCode::InvalidParams => "Invalid parameters"@,
        JsonRpcErrorCode::InternalError => "Internal error"@,
        JsonRpcErrorCode::TaskNotFound => "Task not found"@,
        JsonRpcErrorCode::TaskNotCancelable => "Task cannot be canceled"@,
        JsonRpcErrorCode::PushNotificationNotSupported => "Push Notification is not supported"@,
        JsonRpcErrorCode::UnsupportedOperation => "This operation is not supported"@,
        JsonRpcErrorCode::ContentTypeNotSupported => "Incompatible content types"@,
        JsonRpcErrorCode::InvalidAgentResponse => "Invalid agent response"@,
        JsonRpcErrorCode::AuthenticatedExtendedCardNotConfigured => "Authenticated Extended Card is not configured"@,
    }
}

impl JsonRpcErrorCode {
    /// The numeric code.
    pub fn code(self) -> (r: i32)
        ensures
            r == code_value(self),
    {
        match self {
            JsonRpcErrorCode::ParseError => -32700,
            JsonRpcErrorCode::InvalidRequest => -32600,
            JsonRpcErrorCode::MethodNotFound => -32601,
            JsonRpcErrorCode::InvalidParams => -32602,
            JsonRpcErrorCode::InternalError => -32603,
            JsonRpcErrorCode::TaskNotFound => -32001,
            JsonRpcErrorCode::TaskNotCancelable => -32002,
            JsonRpcErrorCode::PushNotificationNotSupported => -32003,
            JsonRpcErrorCode::UnsupportedOperation => -32004,
            JsonRpcErrorCode::ContentTypeNotSupported => -32005,
            JsonRpcErrorCode::InvalidAgentResponse => -32006,
            JsonRpcErrorCode::AuthenticatedExtendedCardNotConfigured => -32007,
        }
    }

    /// The default message of this code.
    pub fn default_message(&self) -> (r: &'static str)
        ensures
            r@ == default_message_of(*self),
    {
        match self {
            JsonRpcErrorCode::ParseError => "Invalid JSON payload",
            JsonRpcErrorCode::InvalidRequest => "Request payload validation error",
            JsonRpcErrorCode::MethodNotFound => "Method not found",
            JsonRpcErrorCode::InvalidParams => "Invalid parameters",
            JsonRpcErrorCode::InternalError => "Internal error",
            JsonRpcErrorCode::TaskNotFound => "Task not found",
            JsonRpcErrorCode::TaskNotCancelable => "Task cannot be canceled",
            JsonRpcErrorCode::PushNotificationNotSupported => "Push Notification is not supported",
            JsonRpcErrorCode::UnsupportedOperation => "This operation is not supported",
            JsonRpcErrorCode::ContentTypeNotSupported => "Incompatible content types",
            JsonRpcErrorCode::InvalidAgentResponse => "Invalid agent response",
            JsonRpcErrorCode::AuthenticatedExtendedCardNotConfigured => "Authenticated Extended Card is not configured",
        }
    }
}

impl From<i32> for JsonRpcErrorCode {
    fn from(code: i32) -> (r: Self) {
        if code == -32700 {
            JsonRpcErrorCode::ParseError
        } else if code == -32600 {
            JsonRpcErrorCode::InvalidRequest
        } else if code == -32601 {
            JsonRpcErrorCode::MethodNotFound
        } else if code == -32602 {
            JsonRpcErrorCode::InvalidParams
        } else if code == -32001 {
            JsonRpcErrorCode::TaskNotFound
        } else if code == -32002 {
            JsonRpcErrorCode::TaskNotCancelable
        } else if code == -32003 {
            JsonRpcErrorCode::PushNotificationNotSupported
        } else if code == -32004 {
            JsonRpcErrorCode::UnsupportedOperation
        } else if code == -32005 {
            JsonRpcErrorCode::ContentTypeNotSupported
        } else if code == -32006 {
            JsonRpcErrorCode::InvalidAgentResponse
        } else if code == -32007 {
            JsonRpcErrorCode::AuthenticatedExtendedCardNotConfigured
        } else {
            JsonRpcErrorCode::InternalError
        }
    }
}

impl vstd::std_specs::convert::FromSpecImpl<i32> for JsonRpcErrorCode {
    open spec fn obeys_from_spec() -> bool {
        true
    }

    open spec fn from_spec(v: i32) -> Self {
        code_from_value(v)
    }
}

/// Reading a code back from its number gives the code.
pub proof fn lemma_code_round_trip(c: JsonRpcErrorCode)
    ensures
        code_from_value(code_value(c)) == c,
{
}

/// A JSON-RPC 2.0 error object.
#[derive(Debug)]
pub struct JsonRpcError {
    pub code: i32,
    pub message: String,
    pub data: Option<serde_json::Value>,
}

impl Clone for JsonRpcError {
    fn clone(&self) -> (r: Self)
        ensures
            r.code == self.code,
            r.message@ == self.message@,
            r.data == self.data,
    {
        JsonRpcError {
            code: self.code,
            message: self.message.clone(),
            data: match &self.data {
                Some(d) => Some(crate::external::clone_json_value(d)),
                None => None,
            },
        }
    }
}

/// How a JSON-RPC error is printed: its code in brackets, then its message.
pub open spec fn jsonrpc_error_text(code: i32, message: Seq<char>) -> Seq<char> {
    "["@ + signed_decimal(code as int) + "] "@ + message
}

impl JsonRpcError {
    /// The error as it is printed: `[code] message`.
    pub fn display_text(&self) -> (r: String)
        ensures
            r@ == jsonrpc_error_text(self.code, self.message@),
    {
        let code = crate::text::i64_to_decimal(self.code as i64);
        "[".to_owned().concat(code.as_str()).concat("] ").concat(self.message.as_str())
    }

    /// An error of the given kind with the given message and no data.
    pub fn new(code: JsonRpcErrorCode, message: &str) -> (r: Self)
        ensures
            r.code == code_value(code),
            r.message@ == message@,
            r.data is None,
    {
        JsonRpcError { code: code.code(), message: message.to_owned(), data: None }
    }

    /// An error of the given kind with the given message and data.
    pub fn with_data(code: JsonRpcErrorCode, message: &str, data: serde_json::Value) -> (r: Self)
        ensures
            r.code == code_value(code),
            r.message@ == message@,
            r.data == Some(data),
    {
        JsonRpcError { code: code.code(), message: message.to_owned(), data: Some(data) }
    }

    /// A parse error with its default message.
    pub fn parse_error() -> (r: Self)
        ensures
            r.code == -32700,
            r.message@ == default_message_of(JsonRpcErrorCode::ParseError),
            r.data is None,
    {
        Self::new(JsonRpcErrorCode::ParseError, JsonRpcErrorCode::ParseError.default_message())
    }

    /// An invalid request error.
    pub fn invalid_request(message: &str) -> (r: Self)
        ensures
            r.code == -32600,
            r.message@ == message@,
            r.data is None,
    {
        Self::new(JsonRpcErrorCode::InvalidRequest, message)
    }

    /// A method not found error naming the method.
    pub fn method_not_found(method: &str) -> (r: Self)
        ensures
            r.code == -32601,
            r.message@ == "Method '"@ + method@ + "' not found"@,
            r.data is None,
    {
        let m = "Method '".to_owned().concat(method).concat("' not found");
        JsonRpcError { code: -32601, message: m, data: None }
    }

    /// An invalid params error.
    pub fn invalid_params(message: &str) -> (r: Self)
        ensures
            r.code == -32602,
            r.message@ == message@,
            r.data is None,
    {
        Self::new(JsonRpcErrorCode::InvalidParams, message)
    }

    /// An internal error.
    pub fn internal_error(message: &str) -> (r: Self)
        ensures
            r.code == -32603,
            r.message@ == message@,
            r.data is None,
    {
        Self::new(JsonRpcErrorCode::InternalError, message)
    }

    /// A task not found error naming the task.
    pub fn task_not_found(task_id: &str) -> (r: Self)
        ensures
            r.code == -32001,
            r.message@ == "Task '"@ + task_id@ + "' not found"@,
            r.data is None,
    {
        let m = "Task '".to_owned().concat(task_id).concat("' not found");
        JsonRpcError { code: -32001, message: m, data: None }
    }

    /// A task not cancelable error naming the task.
    pub fn task_not_cancelable(task_id: &str) -> (r: Self)
        ensures
            r.code == -32002,
            r.message@ == "Task '"@ + task_id@ + "' cannot be canceled"@,
            r.data is None,
    {
        let m = "Task '".to_owned().concat(task_id).concat("' cannot be canceled");
        JsonRpcError { code: -32002, message: m, data: None }
    }

    /// A push notification not supported error with its default message.
    pub fn push_notification_not_supported() -> (r: Self)
        ensures
            r.code == -32003,
            r.message@ == default_message_of(JsonRpcErrorCode::PushNotificationNotSupported),
            r.data is None,
    {
        Self::new(
            JsonRpcErrorCode::PushNotificationNotSupported,
            JsonRpcErrorCode::PushNotificationNotSupported.default_message(),
        )
    }

    /// An unsupported operation error naming the operation.
    pub fn unsupported_operation(operation: &str) -> (r: Self)
        ensures
            r.code == -32004,
            r.message@ == "Operation '"@ + operation@ + "' is not supported"@,
            r.data is None,
    {
        let m = "Operation '".to_owned().concat(operation).concat("' is not supported");
        JsonRpcError { code: -32004, message: m, data: None }
    }

    /// The error kind of this error's code.
    pub fn error_code(&self) -> (r: JsonRpcErrorCode)
        ensures
            r == code_from_value(self.code),
    {
        JsonRpcErrorCode::from(self.code)
    }
}

/// Server-side error wrapper around a JSON-RPC error.
#[derive(Debug)]
pub struct ServerError {
    pub error: JsonRpcError,
}

impl ServerError {
    /// Wraps an error.
    pub fn new(error: JsonRpcError) -> (r: Self)
        ensures
            r.error == error,
    {
        ServerError { error }
    }

    /// An error of the given kind with its default message.
    pub fn from_code(code: JsonRpcErrorCode) -> (r: Self)
        ensures
            r.error.code == code_value(code),
            r.error.message@ == default_message_of(code),
            r.error.data is None,
    {
        ServerError { error: JsonRpcError::new(code, code.default_message()) }
    }

    /// An error of the given kind with a custom message.
    pub fn with_message(code: JsonRpcErrorCode, message: &str) -> (r: Self)
        ensures
            r.error.code == code_value(code),
            r.error.message@ == message@,
            r.error.data is None,
    {
        ServerError { error: JsonRpcError::new(code, message) }
    }
}

/// The main error type of the library.
#[derive(Debug)]
pub enum A2AError {
    /// JSON-RPC protocol errors.
    JsonRpc(JsonRpcError),
    /// HTTP transport errors.
    Http(reqwest::Error),
    /// JSON serialization/deserialization errors.
    Json(serde_json::Error),
    /// URL parsing errors.
    InvalidUrl(url::ParseError),
    /// Invalid configuration.
    InvalidConfig(String),
    /// Connection errors.
    Connection(String),
    /// Timeout errors.
    Timeout(String),
    /// Stream errors.
    Stream(String),
    /// Internal errors.
    Internal(String),
    /// Client HTTP error with status code and body.
    ClientHttp { status: u16, message: String, body: Option<String> },
    /// Client JSON parsing error.
    ClientJson { message: String, raw_response: Option<String> },
    /// Client JSON-RPC error from a server response.
    ClientJsonRpc { code: i32, message: String, data: Option<serde_json::Value> },
    /// Client timeout error.
    ClientTimeout { duration_secs: u64, message: String },
    /// Client invalid state error.
    ClientInvalidState { message: String },
    /// Agent card error.
    AgentCard { message: String },
    /// Unsupported transport error.
    UnsupportedTransport { transport: String },
    /// Server-side error.
    Server(ServerError),
    /// Invalid request parameters.
    InvalidParams(String),
    /// The named task does not exist.
    TaskNotFound(String),
    /// The named task cannot be canceled.
    TaskNotCancelable(String),
    /// Push notifications are not supported by the agent.
    PushNotificationNotSupported,
    /// No extended agent card is configured.
    ExtendedCardNotConfigured,
    /// A server-side failure described by a message.
    ServerError(String),
    /// A storage backend failure.
    Database(String),
    /// Any other failure.
    Other(String),
}

/// A JSON-RPC error object becomes a protocol error.
impl From<JsonRpcError> for A2AError {
    fn from(e: JsonRpcError) -> (r: Self) {
        A2AError::JsonRpc(e)
    }
}

impl vstd::std_specs::convert::FromSpecImpl<JsonRpcError> for A2AError {
    open spec fn obeys_from_spec() -> bool {
        true
    }

    open spec fn from_spec(v: JsonRpcError) -> Self {
        A2AError::JsonRpc(v)
    }
}

/// An HTTP transport error of `reqwest` becomes a transport error.
impl From<reqwest::Error> for A2AError {
    fn from(e: reqwest::Error) -> (r: Self) {
        A2AError::Http(e)
    }
}

impl vstd::std_specs::convert::FromSpecImpl<reqwest::Error> for A2AError {
    open spec fn obeys_from_spec() -> bool {
        true
    }

    open spec fn from_spec(v: reqwest::Error) -> Self {
        A2AError::Http(v)
    }
}

/// A `serde_json` error becomes a JSON error.
impl From<serde_json::Error> for A2AError {
    fn from(e: serde_json::Error) -> (r: Self) {
        A2AError::Json(e)
    }
}

impl vstd::std_specs::convert::FromSpecImpl<serde_json::Error> for A2AError {
    open spec fn obeys_from_spec() -> bool {
        true
    }

    open spec fn from_spec(v: serde_json::Error) -> Self {
        A2AError::Json(v)
    }
}

/// A URL parse error becomes an invalid-URL error.
impl From<url::ParseError> for A2AError {
    fn from(e: url::ParseError) -> (r: Self) {
        A2AError::InvalidUrl(e)
    }
}

impl vstd::std_specs::convert::FromSpecImpl<url::ParseError> for A2AError {
    open spec fn obeys_from_spec() -> bool {
        true
    }

    open spec fn from_spec(v: url::ParseError) -> Self {
        A2AError::InvalidUrl(v)
    }
}

/// A server error becomes a server-side error.
impl From<ServerError> for A2AError {
    fn from(e: ServerError) -> (r: Self) {
        A2AError::Server(e)
    }
}

impl vstd::std_specs::convert::FromSpecImpl<ServerError> for A2AError {
    open spec fn obeys_from_spec() -> bool {
        true
    }

    open spec fn from_spec(v: ServerError) -> Self {
        A2AError::Server(v)
    }
}

/// `e` is the JSON-RPC error telling that task `id` does not exist.
pub open spec fn is_task_not_found(e: A2AError, id: Seq<char>) -> bool {
    e matches A2AError::JsonRpc(j) && j.code == -32001 && j.message@ == "Task '"@ + id + "' not found"@
        && j.data is None
}

/// `e` is the JSON-RPC error telling that task `id` cannot be canceled.
pub open spec fn is_task_not_cancelable(e: A2AError, id: Seq<char>) -> bool {
    e matches A2AError::JsonRpc(j) && j.code == -32002 && j.message@ == "Task '"@ + id
        + "' cannot be canceled"@ && j.data is None
}

/// Whether an error is a client-side error.
pub open spec fn spec_is_client_error(e: A2AError) -> bool {
    match e {
        A2AError::ClientHttp { .. } | A2AError::ClientJson { .. } | A2AError::ClientJsonRpc { .. }
        | A2AError::ClientTimeout { .. } | A2AError::ClientInvalidState { .. } => true,
        _ => false,
    }
}

/// How an error is printed: a prefix naming its kind, then its details;
/// errors of outside crates (HTTP, JSON, URL) print their own text after
/// the prefix.
pub open spec fn error_text(e: A2AError) -> Seq<char> {
    match e {
        A2AError::JsonRpc(j) => "JSON-RPC error: "@ + jsonrpc_error_text(j.code, j.message@),
        A2AError::Http(x) => "HTTP error: "@ + crate::external::reqwest_display(x),
        A2AError::Json(x) => "JSON error: "@ + crate::external::json_error_display(x),
        A2AError::InvalidUrl(x) => "Invalid URL: "@ + crate::external::url_error_display(x),
        A2AError::InvalidConfig(m) => "Invalid configuration: "@ + m@,
        A2AError::Connection(m) => "Connection error: "@ + m@,
        A2AError::Timeout(m) => "Operation timed out: "@ + m@,
        A2AError::Stream(m) => "Stream error: "@ + m@,
        A2AError::Internal(m) => "Internal error: "@ + m@,
        A2AError::ClientHttp { status, message, .. } => "HTTP "@ + decimal(status as nat) + ": "@ + message@,
        A2AError::ClientJson { message, .. } => "Failed to parse JSON response: "@ + message@,
        A2AError::ClientJsonRpc { code, message, .. } => "JSON-RPC error ["@ + signed_decimal(code as int) + "]: "@ + message@,
        A2AError::ClientTimeout { duration_secs, message } => "Request timed out after "@ + decimal(duration_secs as nat) + "s: "@ + message@,
        A2AError::ClientInvalidState { message } => "Invalid client state: "@ + message@,
        A2AError::AgentCard { message } => "Agent card error: "@ + message@,
        A2AError::UnsupportedTransport { transport } => "Unsupported transport: "@ + transport@,
        A2AError::Server(se) => "Server error: "@ + jsonrpc_error_text(se.error.code, se.error.message@),
        A2AError::InvalidParams(m) => "Invalid params: "@ + m@,
        A2AError::TaskNotFound(t) => "Task not found: "@ + t@,
        A2AError::TaskNotCancelable(t) => "Task not cancelable: "@ + t@,
        A2AError::PushNotificationNotSupported => "Push notifications not supported"@,
        A2AError::ExtendedCardNotConfigured => "Extended agent card not configured"@,
        A2AError::ServerError(m) => "Server error: "@ + m@,
        A2AError::Database(m) => "Database error: "@ + m@,
        A2AError::Other(m) => m@,
    }
}

/// The JSON-RPC code an error is reported with.
pub open spec fn reported_code(e: A2AError) -> i32 {
    match e {
        A2AError::JsonRpc(j) => j.code,
        A2AError::ClientJsonRpc { code, .. } => code,
        A2AError::Server(se) => se.error.code,
        A2AError::InvalidParams(_) => -32602i32,
        A2AError::Json(_) => -32602i32,
        A2AError::TaskNotFound(_) => -32001i32,
        A2AError::TaskNotCancelable(_) => -32002i32,
        A2AError::PushNotificationNotSupported => -32003i32,
        A2AError::ExtendedCardNotConfigured => -32007i32,
        _ => -32603i32,
    }
}

/// The JSON-RPC message an error is reported with.
pub open spec fn reported_message(e: A2AError) -> Seq<char> {
    match e {
        A2AError::JsonRpc(j) => j.message@,
        A2AError::ClientJsonRpc { message, .. } => message@,
        A2AError::Server(se) => se.error.message@,
        A2AError::InvalidParams(m) => m@,
        A2AError::TaskNotFound(t) => "Task '"@ + t@ + "' not found"@,
        A2AError::TaskNotCancelable(t) => "Task '"@ + t@ + "' cannot be canceled"@,
        A2AError::PushNotificationNotSupported => default_message_of(JsonRpcErrorCode::PushNotificationNotSupported),
        A2AError::ExtendedCardNotConfigured => default_message_of(
            JsonRpcErrorCode::AuthenticatedExtendedCardNotConfigured,
        ),
        _ => error_text(e),
    }
}

/// The JSON-RPC data an error is reported with.
pub open spec fn reported_data(e: A2AError) -> Option<serde_json::Value> {
    match e {
        A2AError::JsonRpc(j) => j.data,
        A2AError::ClientJsonRpc { data, .. } => data,
        A2AError::Server(se) => se.error.data,
        _ => None,
    }
}

impl A2AError {
    /// The error as it is printed.
    pub fn display_text(&self) -> (r: String)
        ensures
            r@ == error_text(*self),
    {
        match self {
            A2AError::JsonRpc(j) => "JSON-RPC error: ".to_owned().concat(j.display_text().as_str()),
            A2AError::Http(e) => {
                let t = crate::external::reqwest_error_text(e);
                let r = "HTTP error: ".to_owned().concat(t.as_str());
                r
            }
            A2AError::Json(e) => {
                let t = crate::external::json_error_text(e);
                let r = "JSON error: ".to_owned().concat(t.as_str());
                r
            }
            A2AError::InvalidUrl(e) => {
                let t = crate::external::url_error_text(e);
                let r = "Invalid URL: ".to_owned().concat(t.as_str());
                r
            }
            A2AError::InvalidConfig(m) => "Invalid configuration: ".to_owned().concat(m.as_str()),
            A2AError::Connection(m) => "Connection error: ".to_owned().concat(m.as_str()),
            A2AError::Timeout(m) => "Operation timed out: ".to_owned().concat(m.as_str()),
            A2AError::Stream(m) => "Stream error: ".to_owned().concat(m.as_str()),
            A2AError::Internal(m) => "Internal error: ".to_owned().concat(m.as_str()),
            A2AError::ClientHttp { status, message, .. } => {
                let s = crate::text::u64_to_decimal(*status as u64);
                "HTTP ".to_owned().concat(s.as_str()).concat(": ").concat(message.as_str())
            }
            A2AError::ClientJson { message, .. } => "Failed to parse JSON response: ".to_owned().concat(
                message.as_str(),
            ),
            A2AError::ClientJsonRpc { code, message, .. } => {
                let c = crate::text::i64_to_decimal(*code as i64);
                "JSON-RPC error [".to_owned().concat(c.as_str()).concat("]: ").concat(message.as_str())
            }
            A2AError::ClientTimeout { duration_secs, message } => {
                let d = crate::text::u64_to_decimal(*duration_secs);
                "Request timed out after ".to_owned().concat(d.as_str()).concat("s: ").concat(message.as_str())
            }
            A2AError::ClientInvalidState { message } => "Invalid client state: ".to_owned().concat(
                message.as_str(),
            ),
            A2AError::AgentCard { message } => "Agent card error: ".to_owned().concat(message.as_str()),
            A2AError::UnsupportedTransport { transport } => "Unsupported transport: ".to_owned().concat(
                transport.as_str(),
            ),
            A2AError::Server(se) => "Server error: ".to_owned().concat(se.error.display_text().as_str()),
            A2AError::InvalidParams(m) => "Invalid params: ".to_owned().concat(m.as_str()),
            A2AError::TaskNotFound(t) => "Task not found: ".to_owned().concat(t.as_str()),
            A2AError::TaskNotCancelable(t) => "Task not cancelable: ".to_owned().concat(t.as_str()),
            A2AError::PushNotificationNotSupported => "Push notifications not supported".to_owned(),
            A2AError::ExtendedCardNotConfigured => "Extended agent card not configured".to_owned(),
            A2AError::ServerError(m) => "Server error: ".to_owned().concat(m.as_str()),
            A2AError::Database(m) => "Database error: ".to_owned().concat(m.as_str()),
            A2AError::Other(m) => m.clone(),
        }
    }

    /// The JSON-RPC error this error is reported as: JSON-RPC errors as
    /// they are; invalid parameters, unknown and uncancelable tasks,
    /// unsupported push notifications and a missing extended card with their
    /// protocol codes; unreadable JSON as invalid parameters; anything else as
    /// an internal error with the error's text.
    pub fn to_jsonrpc_error(&self) -> (r: JsonRpcError)
        ensures
            r.code == reported_code(*self),
            r.data == reported_data(*self),
            r.message@ == reported_message(*self),
    {
        match self {
            A2AError::JsonRpc(j) => j.clone(),
            A2AError::ClientJsonRpc { code, message, data } => JsonRpcError {
                code: *code,
                message: message.clone(),
                data: match data {
                    Some(d) => Some(crate::external::clone_json_value(d)),
                    None => None,
                },
            },
            A2AError::Server(se) => se.error.clone(),
            A2AError::InvalidParams(m) => JsonRpcError::invalid_params(m.as_str()),
            A2AError::TaskNotFound(t) => JsonRpcError::task_not_found(t.as_str()),
            A2AError::TaskNotCancelable(t) => JsonRpcError::task_not_cancelable(t.as_str()),
            A2AError::PushNotificationNotSupported => JsonRpcError::push_notification_not_supported(),
            A2AError::ExtendedCardNotConfigured => JsonRpcError::new(
                JsonRpcErrorCode::AuthenticatedExtendedCardNotConfigured,
                JsonRpcErrorCode::AuthenticatedExtendedCardNotConfigured.default_message(),
            ),
            A2AError::Json(_) => {
                let t = self.display_text();
                JsonRpcError::invalid_params(t.as_str())
            }
            _ => {
                let t = self.display_text();
                JsonRpcError::internal_error(t.as_str())
            }
        }
    }

    /// A client HTTP error without body.
    pub fn client_http(status: u16, message: &str) -> (r: Self)
        ensures
            r matches A2AError::ClientHttp { status: s, message: m, body: None } && s == status && m@ == message@,
    {
        A2AError::ClientHttp { status, message: message.to_owned(), body: None }
    }

    /// A client HTTP error with body.
    pub fn client_http_with_body(status: u16, message: &str, body: &str) -> (r: Self)
        ensures
            r matches A2AError::ClientHttp { status: s, message: m, body: Some(b) } && s == status
                && m@ == message@ && b@ == body@,
    {
        A2AError::ClientHttp { status, message: message.to_owned(), body: Some(body.to_owned()) }
    }

    /// A client JSON error without raw response.
    pub fn client_json(message: &str) -> (r: Self)
        ensures
            r matches A2AError::ClientJson { message: m, raw_response: None } && m@ == message@,
    {
        A2AError::ClientJson { message: message.to_owned(), raw_response: None }
    }

    /// A client JSON error with the raw response.
    pub fn client_json_with_response(message: &str, raw_response: &str) -> (r: Self)
        ensures
            r matches A2AError::ClientJson { message: m, raw_response: Some(x) } && m@ == message@
                && x@ == raw_response@,
    {
        A2AError::ClientJson { message: message.to_owned(), raw_response: Some(raw_response.to_owned()) }
    }

    /// A client JSON-RPC error without data.
    pub fn client_jsonrpc(code: i32, message: &str) -> (r: Self)
        ensures
            r matches A2AError::ClientJsonRpc { code: c, message: m, data: None } && c == code && m@ == message@,
    {
        A2AError::ClientJsonRpc { code, message: message.to_owned(), data: None }
    }

    /// A client JSON-RPC error with data.
    pub fn client_jsonrpc_with_data(code: i32, message: &str, data: serde_json::Value) -> (r: Self)
        ensures
            r matches A2AError::ClientJsonRpc { code: c, message: m, data: Some(d) } && c == code
                && m@ == message@ && d == data,
    {
        A2AError::ClientJsonRpc { code, message: message.to_owned(), data: Some(data) }
    }

    /// A client timeout error.
    pub fn client_timeout(duration_secs: u64, message: &str) -> (r: Self)
        ensures
            r matches A2AError::ClientTimeout { duration_secs: d, message: m } && d == duration_secs && m@ == message@,
    {
        A2AError::ClientTimeout { duration_secs, message: message.to_owned() }
    }

    /// A client invalid state error.
    pub fn client_invalid_state(message: &str) -> (r: Self)
        ensures
            r matches A2AError::ClientInvalidState { message: m } && m@ == message@,
    {
        A2AError::ClientInvalidState { message: message.to_owned() }
    }

    /// An agent card error.
    pub fn agent_card(message: &str) -> (r: Self)
        ensures
            r matches A2AError::AgentCard { message: m } && m@ == message@,
    {
        A2AError::AgentCard { message: message.to_owned() }
    }

    /// An unsupported transport error.
    pub fn unsupported_transport(transport: &str) -> (r: Self)
        ensures
            r matches A2AError::UnsupportedTransport { transport: t } && t@ == transport@,
    {
        A2AError::UnsupportedTransport { transport: transport.to_owned() }
    }

    /// Whether this is a client-side error.
    pub fn is_client_error(&self) -> (r: bool)
        ensures
            r == spec_is_client_error(*self),
    {
        match self {
            A2AError::ClientHttp { .. } | A2AError::ClientJson { .. } | A2AError::ClientJsonRpc { .. }
            | A2AError::ClientTimeout { .. } | A2AError::ClientInvalidState { .. } => true,
            _ => false,
        }
    }

    /// Whether this is a timeout error.
    pub fn is_timeout(&self) -> (r: bool)
        ensures
            r == (*self is Timeout || *self is ClientTimeout),
    {
        match self {
            A2AError::Timeout(_) | A2AError::ClientTimeout { .. } => true,
            _ => false,
        }
    }

    /// Whether this is a connection error.
    pub fn is_connection_error(&self) -> (r: bool)
        ensures
            r == (*self is Connection || *self is Http),
    {
        match self {
            A2AError::Connection(_) | A2AError::Http(_) => true,
            _ => false,
        }
    }

    /// The JSON-RPC error code, for JSON-RPC errors.
    pub fn jsonrpc_code(&self) -> (r: Option<i32>)
        ensures
            r == match *self {
                A2AError::JsonRpc(e) => Some(e.code),
                A2AError::ClientJsonRpc { code, .. } => Some(code),
                _ => None,
            },
    {
        match self {
            A2AError::JsonRpc(e) => Some(e.code),
            A2AError::ClientJsonRpc { code, .. } => Some(*code),
            _ => None,
        }
    }
}

} // verus!
