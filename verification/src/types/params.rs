//! Structured parameter types of the protocol methods.

use vstd::prelude::*;
use super::Metadata;
use super::message::Message;
use super::push::PushNotificationConfig;
use super::task::{Task, TaskState};

verus! {

/// Parameters of `message/send`.
#[derive(Debug)]
pub struct MessageSendParams {
    pub message: Message,
    pub configuration: Option<MessageSendConfig>,
    pub metadata: Metadata,
}

impl MessageSendParams {
    /// Parameters sending `message` with no configuration and no metadata.
    pub fn new(message: Message) -> (r: Self)
        ensures
            r.message == message,
            r.configuration is None,
            r.metadata.as_map() == Map::<Seq<char>, serde_json::Value>::empty(),
    {
        MessageSendParams { message, configuration: None, metadata: Metadata::new() }
    }

    /// Sets the configuration.
    pub fn with_configuration(self, config: MessageSendConfig) -> (r: Self)
        ensures
            r.message == self.message,
            r.configuration == Some(config),
            r.metadata == self.metadata,
    {
        MessageSendParams { configuration: Some(config), ..self }
    }
}

/// Options of a `message/send` or `message/stream` request.
#[derive(Debug, Default)]
pub struct MessageSendConfig {
    pub accepted_output_modes: Vec<String>,
    /// Whether the client waits for the task to complete.
    pub blocking: Option<bool>,
    pub history_length: Option<i32>,
    pub push_notification_config: Option<PushNotificationConfig>,
}

/// Parameters of `tasks/get`.
#[derive(Debug)]
pub struct TaskQueryParams {
    pub id: String,
    pub history_length: Option<i32>,
    pub metadata: Metadata,
}

impl TaskQueryParams {
    /// Query parameters for the task `id`.
    pub fn new(id: &str) -> (r: Self)
        ensures
            r.id@ == id@,
            r.history_length is None,
            r.metadata.as_map() == Map::<Seq<char>, serde_json::Value>::empty(),
    {
        TaskQueryParams { id: id.to_owned(), history_length: None, metadata: Metadata::new() }
    }
}

/// Parameters of `tasks/cancel`.
#[derive(Debug)]
pub struct TaskIdParams {
    pub id: String,
    pub metadata: Metadata,
}

impl TaskIdParams {
    /// Parameters naming the task `id`.
    pub fn new(id: &str) -> (r: Self)
        ensures
            r.id@ == id@,
            r.metadata.as_map() == Map::<Seq<char>, serde_json::Value>::empty(),
    {
        TaskIdParams { id: id.to_owned(), metadata: Metadata::new() }
    }
}

/// Parameters of `tasks/list`.
#[derive(Debug, Default)]
pub struct ListTasksRequest {
    pub context_id: Option<String>,
    pub status: Option<TaskState>,
    pub page_size: Option<i32>,
    pub page_token: Option<String>,
    pub history_length: Option<i32>,
    pub last_updated_after: Option<String>,
    pub include_artifacts: bool,
}

/// Result of `tasks/list`.
#[derive(Debug)]
pub struct ListTasksResponse {
    pub tasks: Vec<Task>,
    /// Number of tasks that match, before pagination.
    pub total_size: Option<i32>,
    /// Largest number of tasks a page holds.
    pub page_size: Option<i32>,
    /// Token of the next page; absent when there is none.
    pub next_page_token: Option<String>,
}

} // verus!
