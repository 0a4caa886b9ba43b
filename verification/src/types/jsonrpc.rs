//! JSON-RPC 2.0 envelopes: request ids, requests, success and error responses.

use vstd::prelude::*;
use crate::error::JsonRpcError;

pub use super::params::{
    ListTasksRequest, ListTasksResponse, MessageSendConfig, MessageSendParams, TaskIdParams,
    TaskQueryParams,
};

verus! {

/// The JSON-RPC protocol version.
pub const JSONRPC_VERSION: &'static str = "2.0";

/// The identifier of a JSON-RPC request: a string or a number.
#[derive(Debug, PartialEq, Eq)]
pub enum RequestId {
    /// String identifier.
    String(String),
    /// Numeric identifier.
    Number(i64),
}

/// A request id, by value.
pub enum RequestIdView {
    String(Seq<char>),
    Number(i64),
}

impl DeepView for RequestId {
    type V = RequestIdView;

    open spec fn deep_view(&self) -> RequestIdView {
        match self {
            RequestId::String(s) => RequestIdView::String(s@),
            RequestId::Number(n) => RequestIdView::Number(*n),
        }
    }
}

impl Clone for RequestId {
    fn clone(&self) -> (r: Self)
        ensures
            r.deep_view() == self.deep_view(),
    {
        match self {
            RequestId::String(s) => RequestId::String(s.clone()),
            RequestId::Number(n) => RequestId::Number(*n),
        }
    }
}

impl From<String> for RequestId {
    fn from(s: String) -> (r: Self) {
        RequestId::String(s)
    }
}

impl vstd::std_specs::convert::FromSpecImpl<String> for RequestId {
    open spec fn obeys_from_spec() -> bool {
        true
    }

    open spec fn from_spec(s: String) -> Self {
        RequestId::String(s)
    }
}

impl From<i64> for RequestId {
    fn from(n: i64) -> (r: Self) {
        RequestId::Number(n)
    }
}

impl vstd::std_specs::convert::FromSpecImpl<i64> for RequestId {
    open spec fn obeys_from_spec() -> bool {
        true
    }

    open spec fn from_spec(n: i64) -> Self {
        RequestId::Number(n)
    }
}

impl<'a> From<&'a str> for RequestId {
    fn from(s: &'a str) -> (r: Self)
        ensures
            r matches RequestId::String(t) && t@ == s@,
    {
        RequestId::String(s.to_owned())
    }
}

/// Conversions from text are specified on `from` itself (a string id with
/// the text's characters), not through `from_spec`: the `String` they
/// build cannot be singled out among strings with the same characters.
impl<'a> vstd::std_specs::convert::FromSpecImpl<&'a str> for RequestId {
    open spec fn obeys_from_spec() -> bool {
        false
    }

    open spec fn from_spec(s: &'a str) -> Self {
        choose|r: RequestId| #[trigger] r.deep_view() == RequestIdView::String(s@)
    }
}

impl Default for RequestId {
    /// A random UUID string.
    fn default() -> (r: Self)
        ensures
            r matches RequestId::String(s) && crate::external::is_uuid_text_of_version(s@, '4'),
    {
        RequestId::String(crate::external::new_uuid_v4_text())
    }
}

/// A JSON-RPC 2.0 request.
#[derive(Debug)]
pub struct JsonRpcRequest<P> {
    /// The protocol version, always "2.0".
    pub jsonrpc: String,
    /// The request's identifier.
    pub id: RequestId,
    /// The method to invoke.
    pub method: String,
    /// The parameters of the call.
    pub params: Option<P>,
}

impl<P> JsonRpcRequest<P> {
    /// A request of `method` with `params` and a random string id.
    pub fn new(method: &str, params: P) -> (r: Self)
        ensures
            r.jsonrpc@ == "2.0"@,
            r.id matches RequestId::String(s) && crate::external::is_uuid_text_of_version(s@, '4'),
            r.method@ == method@,
            r.params == Some(params),
    {
        JsonRpcRequest {
            jsonrpc: JSONRPC_VERSION.to_owned(),
            id: RequestId::default(),
            method: method.to_owned(),
            params: Some(params),
        }
    }

    /// A request of `method` with `params` and the given id.
    pub fn with_id(id: RequestId, method: &str, params: P) -> (r: Self)
        ensures
            r.jsonrpc@ == "2.0"@,
            r.id == id,
            r.method@ == method@,
            r.params == Some(params),
    {
        JsonRpcRequest { jsonrpc: JSONRPC_VERSION.to_owned(), id, method: method.to_owned(), params: Some(params) }
    }
}

/// A successful JSON-RPC 2.0 response.
#[derive(Debug)]
pub struct JsonRpcSuccessResponse<R> {
    /// The protocol version, always "2.0".
    pub jsonrpc: String,
    /// The identifier of the request answered.
    pub id: Option<RequestId>,
    /// The result of the call.
    pub result: R,
}

impl<R> JsonRpcSuccessResponse<R> {
    /// A response carrying `result` for the request `id`.
    pub fn new(id: Option<RequestId>, result: R) -> (r: Self)
        ensures
            r.jsonrpc@ == "2.0"@,
            r.id == id,
            r.result == result,
    {
        JsonRpcSuccessResponse { jsonrpc: JSONRPC_VERSION.to_owned(), id, result }
    }
}

/// A failed JSON-RPC 2.0 response.
#[derive(Debug)]
pub struct JsonRpcErrorResponse {
    /// The protocol version, always "2.0".
    pub jsonrpc: String,
    /// The identifier of the request answered.
    pub id: Option<RequestId>,
    /// The error.
    pub error: JsonRpcError,
}

impl JsonRpcErrorResponse {
    /// A response carrying `error` for the request `id`.
    pub fn new(id: Option<RequestId>, error: JsonRpcError) -> (r: Self)
        ensures
            r.jsonrpc@ == "2.0"@,
            r.id == id,
            r.error == error,
    {
        JsonRpcErrorResponse { jsonrpc: JSONRPC_VERSION.to_owned(), id, error }
    }
}

/// A JSON-RPC response: a success or an error.
#[derive(Debug)]
pub enum JsonRpcResponse<R> {
    /// A successful response.
    Success(JsonRpcSuccessResponse<R>),
    /// An error response.
    Error(JsonRpcErrorResponse),
}

impl<R> JsonRpcResponse<R> {
    /// Whether this is a success.
    pub fn is_success(&self) -> (r: bool)
        ensures
            r == (*self is Success),
    {
        match self {
            JsonRpcResponse::Success(_) => true,
            JsonRpcResponse::Error(_) => false,
        }
    }

    /// Whether this is an error.
    pub fn is_error(&self) -> (r: bool)
        ensures
            r == (*self is Error),
    {
        match self {
            JsonRpcResponse::Success(_) => false,
            JsonRpcResponse::Error(_) => true,
        }
    }
}

/// A JSON-RPC response whose result is any JSON value.
pub type A2AResponse = JsonRpcResponse<serde_json::Value>;

} // verus!
