//! Routing of JSON-RPC requests: which handler method a request's method
//! name selects, on the plain endpoint and on the streaming endpoint.

use vstd::prelude::*;
use crate::error::{reported_code, reported_data, reported_message, A2AError, JsonRpcError};
use crate::types::jsonrpc::{JsonRpcErrorResponse, JsonRpcResponse, JsonRpcSuccessResponse, RequestId};

verus! {

/// `message/send`.
pub const METHOD_MESSAGE_SEND: &'static str = "message/send";
/// `message/stream`.
pub const METHOD_MESSAGE_STREAM: &'static str = "message/stream";
/// `tasks/get`.
pub const METHOD_TASKS_GET: &'static str = "tasks/get";
/// `tasks/list`.
pub const METHOD_TASKS_LIST: &'static str = "tasks/list";
/// `tasks/cancel`.
pub const METHOD_TASKS_CANCEL: &'static str = "tasks/cancel";
/// `tasks/resubscribe`.
pub const METHOD_TASKS_RESUBSCRIBE: &'static str = "tasks/resubscribe";
/// `tasks/pushNotificationConfig/set`.
pub const METHOD_PUSH_CONFIG_SET: &'static str = "tasks/pushNotificationConfig/set";
/// `tasks/pushNotificationConfig/get`.
pub const METHOD_PUSH_CONFIG_GET: &'static str = "tasks/pushNotificationConfig/get";
/// `tasks/pushNotificationConfig/list`.
pub const METHOD_PUSH_CONFIG_LIST: &'static str = "tasks/pushNotificationConfig/list";
/// `tasks/pushNotificationConfig/delete`.
pub const METHOD_PUSH_CONFIG_DELETE: &'static str = "tasks/pushNotificationConfig/delete";
/// `agent/getAuthenticatedExtendedCard`.
pub const METHOD_GET_EXTENDED_AGENT_CARD: &'static str = "agent/getAuthenticatedExtendedCard";

/// A method of the plain JSON-RPC endpoint.
#[derive(Debug, Clone, Copy, PartialEq, Eq, Structural)]
pub enum RpcMethod {
    /// Send a message and wait for the result.
    SendMessage,
    /// Get a task.
    GetTask,
    /// Cancel a task.
    CancelTask,
    /// List tasks.
    ListTasks,
    /// Create a push configuration.
    SetPushConfig,
    /// Get a push configuration.
    GetPushConfig,
    /// List push configurations.
    ListPushConfigs,
    /// Delete a push configuration.
    DeletePushConfig,
    /// Get the authenticated extended agent card.
    GetExtendedAgentCard,
}

/// A method of the streaming endpoint.
#[derive(Debug, Clone, Copy, PartialEq, Eq, Structural)]
pub enum StreamMethod {
    /// Send a message and stream the task's events.
    MessageStream,
    /// Stream the events of an existing task.
    Resubscribe,
}

/// The plain-endpoint method a name selects, if any.
pub open spec fn rpc_method_of(name: Seq<char>) -> Option<RpcMethod> {
    if name == METHOD_MESSAGE_SEND@ {
        Some(RpcMethod::SendMessage)
    } else if name == METHOD_TASKS_GET@ {
        Some(RpcMethod::GetTask)
    } else if name == METHOD_TASKS_CANCEL@ {
        Some(RpcMethod::CancelTask)
    } else if name == METHOD_TASKS_LIST@ {
        Some(RpcMethod::ListTasks)
    } else if name == METHOD_PUSH_CONFIG_SET@ {
        Some(RpcMethod::SetPushConfig)
    } else if name == METHOD_PUSH_CONFIG_GET@ {
        Some(RpcMethod::GetPushConfig)
    } else if name == METHOD_PUSH_CONFIG_LIST@ {
        Some(RpcMethod::ListPushConfigs)
    } else if name == METHOD_PUSH_CONFIG_DELETE@ {
        Some(RpcMethod::DeletePushConfig)
    } else if name == METHOD_GET_EXTENDED_AGENT_CARD@ {
        Some(RpcMethod::GetExtendedAgentCard)
    } else {
        None
    }
}

/// The name by which a client asks for each method of the plain endpoint.
pub open spec fn rpc_method_name(m: RpcMethod) -> Seq<char> {
    match m {
        RpcMethod::SendMessage => "message/send"@,
        RpcMethod::GetTask => "tasks/get"@,
        RpcMethod::CancelTask => "tasks/cancel"@,
        RpcMethod::ListTasks => "tasks/list"@,
        RpcMethod::SetPushConfig => "tasks/pushNotificationConfig/set"@,
        RpcMethod::GetPushConfig => "tasks/pushNotificationConfig/get"@,
        RpcMethod::ListPushConfigs => "tasks/pushNotificationConfig/list"@,
        RpcMethod::DeletePushConfig => "tasks/pushNotificationConfig/delete"@,
        RpcMethod::GetExtendedAgentCard => "agent/getAuthenticatedExtendedCard"@,
    }
}

/// The streaming method a name selects, if any.
pub open spec fn stream_method_of(name: Seq<char>) -> Option<StreamMethod> {
    if name == METHOD_MESSAGE_STREAM@ {
        Some(StreamMethod::MessageStream)
    } else if name == METHOD_TASKS_RESUBSCRIBE@ {
        Some(StreamMethod::Resubscribe)
    } else {
        None
    }
}

/// `e` is the method-not-found error for `method`.
pub open spec fn is_method_not_found(e: JsonRpcError, method: Seq<char>) -> bool {
    e.code == -32601 && e.message@ == "Method '"@ + method + "' not found"@ && e.data is None
}

/// The method a request on the plain endpoint is routed to: the streaming
/// methods are refused there as an invalid request, other unknown names
/// as a method not found.
pub fn route_rpc(method: &str) -> (r: Result<RpcMethod, JsonRpcError>)
    ensures
        r matches Ok(m) ==> method@ == rpc_method_name(m),
        match rpc_method_of(method@) {
            Some(m) => r == Ok::<RpcMethod, JsonRpcError>(m),
            None => if stream_method_of(method@) is Some {
                r matches Err(e) && e.code == -32600 && e.message@
                    == "Streaming methods must be called via the SSE endpoint"@
            } else {
                r matches Err(e) && is_method_not_found(e, method@)
            },
        },
{
    proof {
        lemma_rpc_method_names(method@);
    }
    let eq = |name: &str| -> (b: bool)
        ensures
            b == (method@ == name@),
    { crate::text::str_eq(method, name) };
    if eq(METHOD_MESSAGE_SEND) {
        Ok(RpcMethod::SendMessage)
    } else if eq(METHOD_TASKS_GET) {
        Ok(RpcMethod::GetTask)
    } else if eq(METHOD_TASKS_CANCEL) {
        Ok(RpcMethod::CancelTask)
    } else if eq(METHOD_TASKS_LIST) {
        Ok(RpcMethod::ListTasks)
    } else if eq(METHOD_PUSH_CONFIG_SET) {
        Ok(RpcMethod::SetPushConfig)
    } else if eq(METHOD_PUSH_CONFIG_GET) {
        Ok(RpcMethod::GetPushConfig)
    } else if eq(METHOD_PUSH_CONFIG_LIST) {
        Ok(RpcMethod::ListPushConfigs)
    } else if eq(METHOD_PUSH_CONFIG_DELETE) {
        Ok(RpcMethod::DeletePushConfig)
    } else if eq(METHOD_GET_EXTENDED_AGENT_CARD) {
        Ok(RpcMethod::GetExtendedAgentCard)
    } else if eq(METHOD_MESSAGE_STREAM) || eq(METHOD_TASKS_RESUBSCRIBE) {
        Err(JsonRpcError::invalid_request("Streaming methods must be called via the SSE endpoint"))
    } else {
        Err(JsonRpcError::method_not_found(method))
    }
}

/// The method a request on the streaming endpoint is routed to; any other
/// name is a method not found.
pub fn route_stream(method: &str) -> (r: Result<StreamMethod, JsonRpcError>)
    ensures
        match stream_method_of(method@) {
            Some(m) => r == Ok::<StreamMethod, JsonRpcError>(m),
            None => r matches Err(e) && is_method_not_found(e, method@),
        },
{
    if crate::text::str_eq(method, METHOD_MESSAGE_STREAM) {
        Ok(StreamMethod::MessageStream)
    } else if crate::text::str_eq(method, METHOD_TASKS_RESUBSCRIBE) {
        Ok(StreamMethod::Resubscribe)
    } else {
        Err(JsonRpcError::method_not_found(method))
    }
}

/// The error for a request that has no parameters.
pub fn missing_params_error() -> (r: JsonRpcError)
    ensures
        r.code == -32602,
        r.message@ == "Missing params"@,
        r.data is None,
{
    JsonRpcError::invalid_params("Missing params")
}

/// No method name is routed on both endpoints: a name of the plain endpoint
/// is not a streaming method, so each request goes to one handler method.
pub proof fn lemma_routes_disjoint(name: Seq<char>)
    ensures
        rpc_method_of(name) is Some ==> stream_method_of(name) is None,
{
    reveal_strlit("message/send");
    reveal_strlit("message/stream");
    reveal_strlit("tasks/get");
    reveal_strlit("tasks/list");
    reveal_strlit("tasks/cancel");
    reveal_strlit("tasks/resubscribe");
    reveal_strlit("tasks/pushNotificationConfig/set");
    reveal_strlit("tasks/pushNotificationConfig/get");
    reveal_strlit("tasks/pushNotificationConfig/list");
    reveal_strlit("tasks/pushNotificationConfig/delete");
    reveal_strlit("agent/getAuthenticatedExtendedCard");
    assert(METHOD_MESSAGE_STREAM@.len() == 14);
    assert(METHOD_TASKS_RESUBSCRIBE@.len() == 17);
    assert(METHOD_MESSAGE_SEND@.len() == 12);
    assert(METHOD_TASKS_GET@.len() == 9);
    assert(METHOD_TASKS_CANCEL@.len() == 12);
    assert(METHOD_TASKS_LIST@.len() == 10);
    assert(METHOD_PUSH_CONFIG_SET@.len() == 32);
    assert(METHOD_PUSH_CONFIG_GET@.len() == 32);
    assert(METHOD_PUSH_CONFIG_LIST@.len() == 33);
    assert(METHOD_PUSH_CONFIG_DELETE@.len() == 35);
    assert(METHOD_GET_EXTENDED_AGENT_CARD@.len() == 34);
}

/// Each method of the plain endpoint is reached by its own name and by no
/// other: a name selects a method exactly when it is that method's name, so
/// `tasks/get` gets a task, `tasks/list` lists tasks, and no two methods
/// share a name.
pub proof fn lemma_rpc_method_names(name: Seq<char>)
    ensures
        forall|m: RpcMethod| rpc_method_of(#[trigger] rpc_method_name(m)) == Some(m),
        forall|m: RpcMethod| rpc_method_of(name) == Some(m) <==> name == #[trigger] rpc_method_name(m),
        forall|m1: RpcMethod, m2: RpcMethod| #[trigger] rpc_method_name(m1) == #[trigger] rpc_method_name(m2) ==> m1 == m2,
{
    reveal_strlit("message/send");
    reveal_strlit("tasks/get");
    reveal_strlit("tasks/list");
    reveal_strlit("tasks/cancel");
    reveal_strlit("tasks/pushNotificationConfig/set");
    reveal_strlit("tasks/pushNotificationConfig/get");
    reveal_strlit("tasks/pushNotificationConfig/list");
    reveal_strlit("tasks/pushNotificationConfig/delete");
    reveal_strlit("agent/getAuthenticatedExtendedCard");
    let set = "tasks/pushNotificationConfig/set"@;
    let get = "tasks/pushNotificationConfig/get"@;
    assert(set.len() == 32 && get.len() == 32 && set[29] == 's' && get[29] == 'g');
    assert(set != get);
    assert("message/send"@.len() == 12 && "tasks/cancel"@.len() == 12);
    assert("message/send"@[0] == 'm' && "tasks/cancel"@[0] == 't');
    assert("message/send"@ != "tasks/cancel"@);
    assert("tasks/get"@.len() == 9);
    assert("tasks/list"@.len() == 10);
    assert("tasks/pushNotificationConfig/list"@.len() == 33);
    assert("tasks/pushNotificationConfig/delete"@.len() == 35);
    assert("agent/getAuthenticatedExtendedCard"@.len() == 34);
    assert forall|m1: RpcMethod, m2: RpcMethod| #[trigger] rpc_method_name(m1) == #[trigger] rpc_method_name(m2) implies m1 == m2 by {
        if m1 != m2 {
            assert(rpc_method_name(m1) != rpc_method_name(m2));
        }
    }
}

/// The reply to the call with id `id`: a success that carries the result,
/// or an error reply that carries the failure as a JSON-RPC error (with the
/// code, message and data that `to_jsonrpc_error` gives it).
pub fn reply_of<R>(id: Option<RequestId>, outcome: Result<R, A2AError>) -> (r: JsonRpcResponse<R>)
    ensures
        match outcome {
            Ok(v) => r matches JsonRpcResponse::Success(x) && x.jsonrpc@ == "2.0"@ && x.id == id && x.result == v,
            Err(e) => r matches JsonRpcResponse::Error(x) && x.jsonrpc@ == "2.0"@ && x.id == id
                && x.error.code == reported_code(e) && x.error.data == reported_data(e)
                && x.error.message@ == reported_message(e),
        },
{
    match outcome {
        Ok(v) => JsonRpcResponse::Success(JsonRpcSuccessResponse::new(id, v)),
        Err(e) => JsonRpcResponse::Error(JsonRpcErrorResponse::new(id, e.to_jsonrpc_error())),
    }
}

} // verus!
