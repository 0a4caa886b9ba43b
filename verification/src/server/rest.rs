//! The REST binding's own decisions: the error body and HTTP status of a
//! failure, the tenant a request carries, and the query parameters.

use vstd::prelude::*;
use crate::error::A2AError;
use crate::types::request::ListTasksRequest;
use crate::types::task::{TaskState, state_from_name};

verus! {

/// A REST reply.
#[derive(Debug)]
pub enum RestResponse<T> {
    /// A successful reply with data.
    Success(T),
}

/// The body of a REST error reply.
#[derive(Debug)]
pub struct RestErrorResponse {
    /// The JSON-RPC error code.
    pub code: i32,
    /// The error message.
    pub message: String,
    /// Further details.
    pub details: Option<serde_json::Value>,
}

impl RestErrorResponse {
    /// An error reply without details.
    pub fn new(code: i32, message: &str) -> (r: Self)
        ensures
            r.code == code,
            r.message@ == message@,
            r.details is None,
    {
        RestErrorResponse { code, message: message.to_owned(), details: None }
    }

    /// An error reply with details.
    pub fn with_details(code: i32, message: &str, details: serde_json::Value) -> (r: Self)
        ensures
            r.code == code,
            r.message@ == message@,
            r.details == Some(details),
    {
        RestErrorResponse { code, message: message.to_owned(), details: Some(details) }
    }

    /// The reply for an error: JSON-RPC errors keep their code and message;
    /// any other error is an internal error with the error's text.
    pub fn from_error(err: &A2AError) -> (r: Self)
        ensures
            r.details is None,
            match *err {
                A2AError::JsonRpc(e) => r.code == e.code && r.message@ == e.message@,
                A2AError::ClientJsonRpc { code, message, .. } => r.code == code && r.message@ == message@,
                _ => r.code == -32603 && r.message@ == crate::error::error_text(*err),
            },
    {
        match err {
            A2AError::JsonRpc(e) => Self::new(e.code, e.message.as_str()),
            A2AError::ClientJsonRpc { code, message, .. } => Self::new(*code, message.as_str()),
            _ => {
                let t = err.display_text();
                Self::new(-32603, t.as_str())
            }
        }
    }
}

/// The HTTP status of a REST error reply with a JSON-RPC code.
pub open spec fn rest_status_spec(code: i32) -> u16 {
    if code == -32700 || code == -32600 || code == -32602 {
        400
    } else if code == -32601 || code == -32001 {
        404
    } else if code == -32002 {
        409
    } else if code == -32003 || code == -32004 {
        501
    } else {
        500
    }
}

/// The HTTP status of a REST error reply with a JSON-RPC code: 400 for
/// malformed requests and parameters, 404 for unknown methods and tasks,
/// 409 for a task that cannot be canceled, 501 for unsupported features,
/// and 500 otherwise.
pub fn rest_status(code: i32) -> (r: u16)
    ensures
        r == rest_status_spec(code),
{
    if code == -32700 || code == -32600 || code == -32602 {
        400
    } else if code == -32601 || code == -32001 {
        404
    } else if code == -32002 {
        409
    } else if code == -32003 || code == -32004 {
        501
    } else {
        500
    }
}

/// Query parameters of sending a message.
#[derive(Debug, Default)]
pub struct MessageSendQuery {
    /// Whether to stream the reply.
    pub stream: bool,
}

/// Query parameters of task operations.
#[derive(Debug, Default)]
pub struct TaskQuery {
    /// The most history messages to return.
    pub history_length: Option<u32>,
}

/// Query parameters of push configuration operations.
#[derive(Debug, Default)]
pub struct PushConfigQuery {
    /// The configuration id to select.
    pub config_id: Option<String>,
}

/// The tenant a request carries in its `x-a2a-tenant` header: the header's
/// text when it is present and not empty.
pub fn tenant_from_header(value: Option<&str>) -> (r: Option<String>)
    ensures
        match value {
            Some(v) => if v@.len() > 0 { r matches Some(t) && t@ == v@ } else { r is None },
            None => r is None,
        },
{
    match value {
        Some(v) => {
            if v.unicode_len() > 0 {
                Some(v.to_owned())
            } else {
                None
            }
        }
        None => None,
    }
}

/// The query parameters of listing tasks over REST.
#[derive(Debug, Default)]
pub struct ListTasksQuery {
    /// Filter by context.
    pub context_id: Option<String>,
    /// Filter by state, by its protocol name.
    pub status: Option<String>,
    /// The most tasks per page.
    pub page_size: Option<i32>,
    /// The page token.
    pub page_token: Option<String>,
    /// The most history messages per task.
    pub history_length: Option<i32>,
    /// Only tasks updated after this time.
    pub status_timestamp_after: Option<String>,
    /// Whether artifacts are included.
    pub include_artifacts: Option<bool>,
}

/// The list request a REST query stands for, with the request's tenant; a
/// state is read from its protocol name, and unknown names read as
/// unspecified.
pub fn list_request_of_query(tenant: Option<String>, query: ListTasksQuery) -> (r: ListTasksRequest)
    ensures
        r.tenant == tenant,
        r.context_id == query.context_id,
        r.status == match query.status {
            Some(s) => Some(state_from_name(s@)),
            None => None::<TaskState>,
        },
        r.page_size == query.page_size,
        r.page_token == query.page_token,
        r.history_length == query.history_length,
        r.status_timestamp_after == query.status_timestamp_after,
        r.include_artifacts == query.include_artifacts,
{
    let status = match &query.status {
        Some(s) => Some(TaskState::from_state_str(s.as_str())),
        None => None,
    };
    ListTasksRequest {
        tenant,
        context_id: query.context_id,
        status,
        page_size: query.page_size,
        page_token: query.page_token,
        history_length: query.history_length,
        status_timestamp_after: query.status_timestamp_after,
        include_artifacts: query.include_artifacts,
    }
}

} // verus!
