//! Push notification configuration types.

use vstd::prelude::*;
use super::id::TaskId;

verus! {

/// Where and how to deliver push notifications for a task.
#[derive(Debug)]
pub struct PushNotificationConfig {
    pub id: Option<String>,
    pub url: String,
    pub token: Option<String>,
    pub authentication: Option<AuthenticationInfo>,
}

/// Authentication details for a push notification endpoint.
#[derive(Debug)]
pub struct AuthenticationInfo {
    /// HTTP authentication scheme, such as `Bearer` or `Basic`.
    pub scheme: String,
    pub credentials: Option<String>,
}

/// A push notification configuration associated with a task.
#[derive(Debug)]
pub struct TaskPushNotificationConfig {
    pub tenant: Option<String>,
    pub id: Option<String>,
    pub task_id: Option<TaskId>,
    pub url: String,
    pub token: Option<String>,
    pub authentication: Option<AuthenticationInfo>,
}

/// Authentication details, by value.
pub struct AuthenticationInfoView {
    pub scheme: Seq<char>,
    pub credentials: Option<Seq<char>>,
}

/// A push notification configuration, by value.
pub struct PushConfigView {
    pub id: Option<Seq<char>>,
    pub url: Seq<char>,
    pub token: Option<Seq<char>>,
    pub authentication: Option<AuthenticationInfoView>,
}

/// A task push notification configuration, by value.
pub struct TaskPushConfigView {
    pub tenant: Option<Seq<char>>,
    pub id: Option<Seq<char>>,
    pub task_id: Option<Seq<char>>,
    pub url: Seq<char>,
    pub token: Option<Seq<char>>,
    pub authentication: Option<AuthenticationInfoView>,
}

impl DeepView for AuthenticationInfo {
    type V = AuthenticationInfoView;

    open spec fn deep_view(&self) -> AuthenticationInfoView {
        AuthenticationInfoView { scheme: self.scheme@, credentials: self.credentials.deep_view() }
    }
}

impl DeepView for PushNotificationConfig {
    type V = PushConfigView;

    open spec fn deep_view(&self) -> PushConfigView {
        PushConfigView {
            id: self.id.deep_view(),
            url: self.url@,
            token: self.token.deep_view(),
            authentication: self.authentication.deep_view(),
        }
    }
}

impl DeepView for TaskPushNotificationConfig {
    type V = TaskPushConfigView;

    open spec fn deep_view(&self) -> TaskPushConfigView {
        TaskPushConfigView {
            tenant: self.tenant.deep_view(),
            id: self.id.deep_view(),
            task_id: self.task_id.deep_view(),
            url: self.url@,
            token: self.token.deep_view(),
            authentication: self.authentication.deep_view(),
        }
    }
}

impl Clone for AuthenticationInfo {
    fn clone(&self) -> (r: Self)
        ensures
            r.deep_view() == self.deep_view(),
    {
        AuthenticationInfo {
            scheme: self.scheme.clone(),
            credentials: super::clone_opt_string(&self.credentials),
        }
    }
}

/// Copies optional authentication details.
pub fn clone_opt_auth(a: &Option<AuthenticationInfo>) -> (r: Option<AuthenticationInfo>)
    ensures
        r.deep_view() == a.deep_view(),
{
    match a {
        Some(x) => Some(x.clone()),
        None => None,
    }
}

impl Clone for PushNotificationConfig {
    fn clone(&self) -> (r: Self)
        ensures
            r.deep_view() == self.deep_view(),
    {
        PushNotificationConfig {
            id: super::clone_opt_string(&self.id),
            url: self.url.clone(),
            token: super::clone_opt_string(&self.token),
            authentication: clone_opt_auth(&self.authentication),
        }
    }
}

impl Clone for TaskPushNotificationConfig {
    fn clone(&self) -> (r: Self)
        ensures
            r.deep_view() == self.deep_view(),
    {
        TaskPushNotificationConfig {
            tenant: super::clone_opt_string(&self.tenant),
            id: super::clone_opt_string(&self.id),
            task_id: match &self.task_id {
                Some(t) => Some(t.clone()),
                None => None,
            },
            url: self.url.clone(),
            token: super::clone_opt_string(&self.token),
            authentication: clone_opt_auth(&self.authentication),
        }
    }
}

impl PushNotificationConfig {
    /// A configuration with the given callback URL and nothing else.
    pub fn new(url: &str) -> (r: Self)
        ensures
            r.deep_view() == (PushConfigView { id: None, url: url@, token: None, authentication: None }),
    {
        PushNotificationConfig { id: None, url: url.to_owned(), token: None, authentication: None }
    }
}

impl TaskPushNotificationConfig {
    /// A task configuration with the given callback URL and nothing else.
    pub fn new(url: &str) -> (r: Self)
        ensures
            r.deep_view() == (TaskPushConfigView {
                tenant: None,
                id: None,
                task_id: None,
                url: url@,
                token: None,
                authentication: None,
            }),
    {
        TaskPushNotificationConfig {
            tenant: None,
            id: None,
            task_id: None,
            url: url.to_owned(),
            token: None,
            authentication: None,
        }
    }
}

} // verus!
