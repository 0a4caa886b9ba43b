//! Building the context of a request: which task and context it belongs
//! to, what it asks for, and the user input it carries.

use vstd::prelude::*;
use crate::error::A2AError;
use crate::types::Metadata;
use crate::types::message::{Message, texts_of, join};
use crate::types::params::MessageSendParams;
use crate::types::task::{Task, TaskView};

verus! {

/// A request's context: its task and context, the message, the task it
/// continues, related tasks, metadata and extensions.
#[derive(Debug)]
pub struct ExtendedRequestContext {
    /// The task of the request.
    pub task_id: String,
    /// The context of the request.
    pub context_id: String,
    /// The message being processed.
    pub message: Message,
    /// The task the request continues, if any.
    pub task: Option<Task>,
    /// Tasks attached as related.
    pub related_tasks: Vec<Task>,
    /// Metadata of the request.
    pub metadata: Option<Metadata>,
    /// Extensions the client asked for.
    pub requested_extensions: Vec<String>,
    /// Extensions activated for the response.
    pub activated_extensions: Vec<String>,
}

/// Whether `x` occurs among the strings of `list`.
pub open spec fn lists_text(list: Seq<String>, x: Seq<char>) -> bool {
    exists|i: int| 0 <= i < list.len() && #[trigger] list[i]@ == x
}

fn find_text(list: &Vec<String>, x: &str) -> (r: bool)
    ensures
        r == lists_text(list@, x@),
{
    let mut i: usize = 0;
    while i < list.len()
        invariant
            i <= list.len(),
            forall|j: int| 0 <= j < i ==> list@[j]@ != x@,
        decreases list.len() - i,
    {
        if crate::text::str_eq(list[i].as_str(), x) {
            assert(list@[i as int]@ == x@);
            return true;
        }
        i = i + 1;
    }
    false
}

impl ExtendedRequestContext {
    /// A context for the given task, context and message, with nothing else.
    pub fn new(task_id: &str, context_id: &str, message: Message) -> (r: Self)
        ensures
            r.task_id@ == task_id@,
            r.context_id@ == context_id@,
            r.message == message,
            r.task is None,
            r.related_tasks@.len() == 0,
            r.metadata is None,
            r.requested_extensions@.len() == 0,
            r.activated_extensions@.len() == 0,
    {
        ExtendedRequestContext {
            task_id: task_id.to_owned(),
            context_id: context_id.to_owned(),
            message,
            task: None,
            related_tasks: Vec::new(),
            metadata: None,
            requested_extensions: Vec::new(),
            activated_extensions: Vec::new(),
        }
    }

    /// A context with random task and context ids.
    pub fn create(message: Message) -> (r: Self)
        ensures
            crate::external::is_uuid_text_of_version(r.task_id@, '4'),
            crate::external::is_uuid_text_of_version(r.context_id@, '4'),
            r.message == message,
            r.task is None,
            r.related_tasks@.len() == 0,
            r.metadata is None,
            r.requested_extensions@.len() == 0,
            r.activated_extensions@.len() == 0,
    {
        let t = crate::external::new_uuid_v4_text();
        let c = crate::external::new_uuid_v4_text();
        Self::new(t.as_str(), c.as_str(), message)
    }

    /// Sets the task the request continues.
    pub fn with_task(self, task: Task) -> (r: Self)
        ensures
            r == (ExtendedRequestContext { task: Some(task), ..self }),
    {
        ExtendedRequestContext { task: Some(task), ..self }
    }

    /// Sets the metadata.
    pub fn with_metadata(self, metadata: Metadata) -> (r: Self)
        ensures
            r == (ExtendedRequestContext { metadata: Some(metadata), ..self }),
    {
        ExtendedRequestContext { metadata: Some(metadata), ..self }
    }

    /// Sets the requested extensions.
    pub fn with_extensions(self, extensions: Vec<String>) -> (r: Self)
        ensures
            r == (ExtendedRequestContext { requested_extensions: extensions, ..self }),
    {
        ExtendedRequestContext { requested_extensions: extensions, ..self }
    }

    /// Attaches a related task.
    pub fn attach_related_task(&mut self, task: Task)
        ensures
            final(self).related_tasks@ == old(self).related_tasks@.push(task),
            final(self).task_id == old(self).task_id,
            final(self).context_id == old(self).context_id,
            final(self).message == old(self).message,
            final(self).task == old(self).task,
            final(self).metadata == old(self).metadata,
            final(self).requested_extensions == old(self).requested_extensions,
            final(self).activated_extensions == old(self).activated_extensions,
    {
        self.related_tasks.push(task);
    }

    /// Activates an extension for the response.
    pub fn activate_extension(&mut self, extension: &str)
        ensures
            final(self).activated_extensions@.len() == old(self).activated_extensions@.len() + 1,
            forall|i: int| 0 <= i < old(self).activated_extensions@.len() ==>
                #[trigger] final(self).activated_extensions@[i] == old(self).activated_extensions@[i],
            final(self).activated_extensions@.last()@ == extension@,
            final(self).task_id == old(self).task_id,
            final(self).context_id == old(self).context_id,
            final(self).message == old(self).message,
            final(self).task == old(self).task,
            final(self).metadata == old(self).metadata,
            final(self).requested_extensions == old(self).requested_extensions,
            final(self).related_tasks == old(self).related_tasks,
    {
        self.activated_extensions.push(extension.to_owned());
    }

    /// A metadata value.
    pub fn get_metadata(&self, key: &str) -> (r: Option<&serde_json::Value>)
        ensures
            match self.metadata {
                Some(m) => match r {
                    Some(v) => m.as_map().contains_key(key@) && m.as_map()[key@] == *v,
                    None => !m.as_map().contains_key(key@),
                },
                None => r is None,
            },
    {
        match &self.metadata {
            Some(m) => m.get(key),
            None => None,
        }
    }

    /// Whether the client asked for the extension.
    pub fn has_extension(&self, uri: &str) -> (r: bool)
        ensures
            r == lists_text(self.requested_extensions@, uri@),
    {
        find_text(&self.requested_extensions, uri)
    }

    /// Whether the extension is activated.
    pub fn is_extension_activated(&self, uri: &str) -> (r: bool)
        ensures
            r == lists_text(self.activated_extensions@, uri@),
    {
        find_text(&self.activated_extensions, uri)
    }

    /// The user's input: the text parts of the message joined by newlines.
    pub fn get_user_input(&self) -> (r: String)
        ensures
            r@ == join(texts_of(self.message.parts.deep_view()), "\n"@),
    {
        crate::task_helpers::get_message_text(&self.message, "\n")
    }

    /// The task the request continues.
    pub fn get_task(&self) -> (r: Option<&Task>)
        ensures
            match self.task {
                Some(t) => r == Some(&t),
                None => r is None,
            },
    {
        match &self.task {
            Some(t) => Some(t),
            None => None,
        }
    }

    /// The related tasks.
    pub fn get_related_tasks(&self) -> (r: &[Task])
        ensures
            r@ == self.related_tasks@,
    {
        self.related_tasks.as_slice()
    }
}

/// Builds request contexts, taking ids from the message, then from the task
/// the request continues, and making fresh ones otherwise.
#[derive(Debug, Default)]
pub struct SimpleExtendedRequestContextBuilder;

impl Clone for SimpleExtendedRequestContextBuilder {
    fn clone(&self) -> (r: Self) {
        SimpleExtendedRequestContextBuilder
    }
}

impl SimpleExtendedRequestContextBuilder {
    /// A builder.
    pub fn new() -> (r: Self) {
        SimpleExtendedRequestContextBuilder
    }

    /// The task id: the message's, else the existing task's, else a fresh one.
    pub fn get_task_id(message: &Message, existing_task: Option<&Task>) -> (r: String)
        ensures
            match message.task_id {
                Some(t) => r@ == t@,
                None => match existing_task {
                    Some(e) => r@ == e.id@,
                    None => crate::external::is_uuid_text_of_version(r@, '4'),
                },
            },
    {
        match &message.task_id {
            Some(t) => t.as_str().to_owned(),
            None => match existing_task {
                Some(e) => e.id.as_str().to_owned(),
                None => crate::external::new_uuid_v4_text(),
            },
        }
    }

    /// The context id: the message's, else the existing task's, else a fresh one.
    pub fn get_context_id(message: &Message, existing_task: Option<&Task>) -> (r: String)
        ensures
            match message.context_id {
                Some(c) => r@ == c@,
                None => match existing_task {
                    Some(e) => r@ == e.context_id@,
                    None => crate::external::is_uuid_text_of_version(r@, '4'),
                },
            },
    {
        match &message.context_id {
            Some(c) => c.clone(),
            None => match existing_task {
                Some(e) => e.context_id.as_str().to_owned(),
                None => crate::external::new_uuid_v4_text(),
            },
        }
    }

    /// The context of a send: ids as `get_task_id` and `get_context_id`
    /// choose, the message, a copy of the existing task, the parameters'
    /// metadata, and the extensions the message asks for.
    pub fn build(&self, params: &MessageSendParams, existing_task: Option<&Task>) -> (r: Result<ExtendedRequestContext, A2AError>)
        ensures
            r matches Ok(c) && {
                &&& match params.message.task_id {
                    Some(t) => c.task_id@ == t@,
                    None => match existing_task {
                        Some(e) => c.task_id@ == e.id@,
                        None => crate::external::is_uuid_text_of_version(c.task_id@, '4'),
                    },
                }
                &&& match params.message.context_id {
                    Some(x) => c.context_id@ == x@,
                    None => match existing_task {
                        Some(e) => c.context_id@ == e.context_id@,
                        None => crate::external::is_uuid_text_of_version(c.context_id@, '4'),
                    },
                }
                &&& c.message.deep_view() == params.message.deep_view()
                &&& match existing_task {
                    Some(e) => c.task matches Some(t) && t.deep_view() == e.deep_view(),
                    None => c.task is None,
                }
                &&& c.related_tasks@.len() == 0
                &&& c.metadata matches Some(m) && m.deep_view() == params.metadata.deep_view()
                &&& c.requested_extensions.deep_view() == params.message.extensions.deep_view()
                &&& c.activated_extensions@.len() == 0
            },
    {
        let message = &params.message;
        let task_id = Self::get_task_id(message, existing_task);
        let context_id = Self::get_context_id(message, existing_task);
        Ok(ExtendedRequestContext {
            task_id,
            context_id,
            message: message.clone(),
            task: match existing_task {
                Some(t) => Some(t.clone()),
                None => None,
            },
            related_tasks: Vec::new(),
            metadata: Some(params.metadata.clone()),
            requested_extensions: crate::types::clone_strings(&message.extensions),
            activated_extensions: Vec::new(),
        })
    }
}

} // verus!
