//! Response types of the protocol operations.

use vstd::prelude::*;
use super::push::TaskPushNotificationConfig;
use super::task::Task;

verus! {

/// Response of `ListTasks`.
#[derive(Debug)]
pub struct ListTasksResponse {
    pub tasks: Vec<Task>,
    pub next_page_token: String,
    pub page_size: i32,
    pub total_size: i32,
}

/// Response of `ListTaskPushNotificationConfigs`.
#[derive(Debug)]
pub struct ListTaskPushNotificationConfigsResponse {
    pub configs: Vec<TaskPushNotificationConfig>,
    pub next_page_token: Option<String>,
}

} // verus!
