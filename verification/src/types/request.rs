//! Request types of the protocol operations; each carries an optional tenant.

use vstd::prelude::*;
use super::Metadata;
use super::id::TaskId;
use super::message::Message;
use super::push::TaskPushNotificationConfig;
use super::task::TaskState;

verus! {

/// Configuration of a send message request.
#[derive(Debug)]
pub struct SendMessageConfiguration {
    /// MIME types the client accepts for response parts.
    pub accepted_output_modes: Vec<String>,
    /// Push notification configuration for task updates.
    pub task_push_notification_config: Option<TaskPushNotificationConfig>,
    /// Maximum number of recent messages to include in the response.
    pub history_length: Option<i32>,
    /// Return right after the task is created, even if work is ongoing.
    pub return_immediately: bool,
}

/// Request for `SendMessage` / `SendStreamingMessage`.
#[derive(Debug)]
pub struct SendMessageRequest {
    pub tenant: Option<String>,
    pub message: Message,
    pub configuration: Option<SendMessageConfiguration>,
    pub metadata: Option<Metadata>,
}

impl SendMessageRequest {
    /// A request sending `message` with no configuration.
    pub fn new(message: Message) -> (r: Self)
        ensures
            r.tenant is None,
            r.message == message,
            r.configuration is None,
            r.metadata is None,
    {
        SendMessageRequest { tenant: None, message, configuration: None, metadata: None }
    }

    /// Sets the configuration.
    pub fn with_configuration(self, config: SendMessageConfiguration) -> (r: Self)
        ensures
            r.tenant == self.tenant,
            r.message == self.message,
            r.configuration == Some(config),
            r.metadata == self.metadata,
    {
        SendMessageRequest { configuration: Some(config), ..self }
    }
}

/// Request for `GetTask`.
#[derive(Debug)]
pub struct GetTaskRequest {
    pub tenant: Option<String>,
    pub id: TaskId,
    /// Maximum number of recent messages to include.
    pub history_length: Option<i32>,
}

/// Request for `ListTasks`.
#[derive(Debug, Default)]
pub struct ListTasksRequest {
    pub tenant: Option<String>,
    /// Keep only tasks of this context.
    pub context_id: Option<String>,
    /// Keep only tasks in this state.
    pub status: Option<TaskState>,
    /// Maximum number of tasks to return (default 50, at most 100).
    pub page_size: Option<i32>,
    /// Pagination token.
    pub page_token: Option<String>,
    pub history_length: Option<i32>,
    pub status_timestamp_after: Option<String>,
    pub include_artifacts: Option<bool>,
}

/// Request for `CancelTask`.
#[derive(Debug)]
pub struct CancelTaskRequest {
    pub tenant: Option<String>,
    pub id: TaskId,
    pub metadata: Option<Metadata>,
}

/// Request for `SubscribeToTask`.
#[derive(Debug)]
pub struct SubscribeToTaskRequest {
    pub tenant: Option<String>,
    pub id: TaskId,
}

/// Request for `GetTaskPushNotificationConfig`.
#[derive(Debug)]
pub struct GetTaskPushNotificationConfigRequest {
    pub tenant: Option<String>,
    pub task_id: TaskId,
    /// The config id to retrieve.
    pub id: String,
}

/// Request for `DeleteTaskPushNotificationConfig`.
#[derive(Debug)]
pub struct DeleteTaskPushNotificationConfigRequest {
    pub tenant: Option<String>,
    pub task_id: TaskId,
    /// The config id to delete.
    pub id: String,
}

/// Request for `ListTaskPushNotificationConfigs`.
#[derive(Debug)]
pub struct ListTaskPushNotificationConfigsRequest {
    pub tenant: Option<String>,
    pub task_id: TaskId,
    pub page_size: Option<i32>,
    pub page_token: Option<String>,
}

/// Request for `GetExtendedAgentCard`.
#[derive(Debug, Default)]
pub struct GetExtendedAgentCardRequest {
    pub tenant: Option<String>,
}

} // verus!
