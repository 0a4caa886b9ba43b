//! Messages exchanged between a user and an agent.

use vstd::prelude::*;
use super::Metadata;
use super::id::{MessageId, TaskId, clone_vec};
use super::part::{Part, PartView, part_text};

verus! {

/// The sender of a message.
#[derive(Debug, Clone, Copy, PartialEq, Eq, Hash)]
pub enum Role {
    Unspecified,
    User,
    Agent,
}

/// The protocol name of a role.
pub open spec fn role_name(r: Role) -> Seq<char> {
    match r {
        Role::Unspecified => "ROLE_UNSPECIFIED"@,
        Role::User => "ROLE_USER"@,
        Role::Agent => "ROLE_AGENT"@,
    }
}

impl Role {
    /// The protocol enum text of this role.
    pub fn as_str(self) -> (r: &'static str)
        ensures
            r@ == role_name(self),
    {
        match self {
            Role::Unspecified => "ROLE_UNSPECIFIED",
            Role::User => "ROLE_USER",
            Role::Agent => "ROLE_AGENT",
        }
    }
}

/// A single message in the conversation between a user and an agent.
#[derive(Debug)]
pub struct Message {
    pub message_id: MessageId,
    pub context_id: Option<String>,
    pub task_id: Option<TaskId>,
    pub role: Role,
    pub parts: Vec<Part>,
    pub metadata: Option<Metadata>,
    pub extensions: Vec<String>,
    pub reference_task_ids: Vec<TaskId>,
}

/// A message, by value.
pub struct MessageView {
    pub message_id: Seq<char>,
    pub context_id: Option<Seq<char>>,
    pub task_id: Option<Seq<char>>,
    pub role: Role,
    pub parts: Seq<PartView>,
    pub metadata: Option<Seq<(Seq<char>, serde_json::Value)>>,
    pub extensions: Seq<Seq<char>>,
    pub reference_task_ids: Seq<Seq<char>>,
}

impl DeepView for Message {
    type V = MessageView;

    open spec fn deep_view(&self) -> MessageView {
        MessageView {
            message_id: self.message_id@,
            context_id: self.context_id.deep_view(),
            task_id: self.task_id.deep_view(),
            role: self.role,
            parts: self.parts.deep_view(),
            metadata: self.metadata.deep_view(),
            extensions: self.extensions.deep_view(),
            reference_task_ids: self.reference_task_ids.deep_view(),
        }
    }
}

impl Clone for Message {
    fn clone(&self) -> (r: Self)
        ensures
            r.deep_view() == self.deep_view(),
    {
        Message {
            message_id: self.message_id.clone(),
            context_id: super::clone_opt_string(&self.context_id),
            task_id: match &self.task_id {
                Some(t) => Some(t.clone()),
                None => None,
            },
            role: self.role,
            parts: clone_vec(&self.parts),
            metadata: super::clone_opt_metadata(&self.metadata),
            extensions: super::clone_strings(&self.extensions),
            reference_task_ids: clone_vec(&self.reference_task_ids),
        }
    }
}

/// The texts of the text parts, in order.
pub open spec fn texts_of(parts: Seq<PartView>) -> Seq<Seq<char>>
    decreases parts.len(),
{
    if parts.len() == 0 {
        Seq::empty()
    } else {
        let rest = texts_of(parts.drop_last());
        match part_text(parts.last()) {
            Some(t) => rest.push(t),
            None => rest,
        }
    }
}

/// The strings of `list` joined with `sep` between neighbours.
pub open spec fn join(list: Seq<Seq<char>>, sep: Seq<char>) -> Seq<char>
    decreases list.len(),
{
    if list.len() == 0 {
        Seq::empty()
    } else if list.len() == 1 {
        list[0]
    } else {
        join(list.drop_last(), sep) + sep + list.last()
    }
}

/// A fresh message with the given role and parts, whose id is `id`.
pub open spec fn fresh_message(id: Seq<char>, role: Role, parts: Seq<PartView>) -> MessageView {
    MessageView {
        message_id: id,
        context_id: None,
        task_id: None,
        role,
        parts,
        metadata: None,
        extensions: Seq::empty(),
        reference_task_ids: Seq::empty(),
    }
}

impl Message {
    /// A new message with the given role and parts and a random id.
    pub fn new(role: Role, parts: Vec<Part>) -> (r: Self)
        ensures
            r.deep_view() == fresh_message(r.message_id@, role, parts.deep_view()),
            crate::external::is_uuid_text_of_version(r.message_id@, '7'),
    {
        let r = Message {
            message_id: MessageId::random(),
            context_id: None,
            task_id: None,
            role,
            parts,
            metadata: None,
            extensions: Vec::new(),
            reference_task_ids: Vec::new(),
        };
        assert(r.extensions.deep_view() =~= Seq::<Seq<char>>::empty());
        assert(r.reference_task_ids.deep_view() =~= Seq::<Seq<char>>::empty());
        r
    }

    /// A user message with a random id.
    pub fn user(parts: Vec<Part>) -> (r: Self)
        ensures
            r.deep_view() == fresh_message(r.message_id@, Role::User, parts.deep_view()),
            crate::external::is_uuid_text_of_version(r.message_id@, '7'),
    {
        Self::new(Role::User, parts)
    }

    /// An agent message with a random id.
    pub fn agent(parts: Vec<Part>) -> (r: Self)
        ensures
            r.deep_view() == fresh_message(r.message_id@, Role::Agent, parts.deep_view()),
            crate::external::is_uuid_text_of_version(r.message_id@, '7'),
    {
        Self::new(Role::Agent, parts)
    }

    /// A user message of a single text part.
    pub fn user_text(text: &str) -> (r: Self)
        ensures
            r.deep_view() == fresh_message(r.message_id@, Role::User, seq![Part::text_view(text@)]),
            crate::external::is_uuid_text_of_version(r.message_id@, '7'),
    {
        let mut parts: Vec<Part> = Vec::new();
        parts.push(Part::text(text));
        assert(parts.deep_view() =~= seq![Part::text_view(text@)]);
        Self::user(parts)
    }

    /// An agent message of a single text part.
    pub fn agent_text(text: &str) -> (r: Self)
        ensures
            r.deep_view() == fresh_message(r.message_id@, Role::Agent, seq![Part::text_view(text@)]),
            crate::external::is_uuid_text_of_version(r.message_id@, '7'),
    {
        let mut parts: Vec<Part> = Vec::new();
        parts.push(Part::text(text));
        assert(parts.deep_view() =~= seq![Part::text_view(text@)]);
        Self::agent(parts)
    }

    /// Sets the task id.
    pub fn with_task_id(self, task_id: TaskId) -> (r: Self)
        ensures
            r.deep_view() == (MessageView { task_id: Some(task_id@), ..self.deep_view() }),
    {
        Message { task_id: Some(task_id), ..self }
    }

    /// Sets the context id.
    pub fn with_context_id(self, context_id: &str) -> (r: Self)
        ensures
            r.deep_view() == (MessageView { context_id: Some(context_id@), ..self.deep_view() }),
    {
        Message { context_id: Some(context_id.to_owned()), ..self }
    }

    /// Sets the metadata.
    pub fn with_metadata(self, metadata: Metadata) -> (r: Self)
        ensures
            r.deep_view() == (MessageView { metadata: Some(metadata.deep_view()), ..self.deep_view() }),
    {
        Message { metadata: Some(metadata), ..self }
    }

    /// The texts of all text parts joined by newlines, or `None` when there
    /// is no text part.
    pub fn text_content(&self) -> (r: Option<String>)
        ensures
            match r {
                Some(s) => texts_of(self.parts.deep_view()).len() > 0
                    && s@ == join(texts_of(self.parts.deep_view()), "\n"@),
                None => texts_of(self.parts.deep_view()).len() == 0,
            },
    {
        let ghost ps = self.parts.deep_view();
        let mut acc = String::new();
        let mut found = false;
        let mut i: usize = 0;
        while i < self.parts.len()
            invariant
                i <= self.parts.len(),
                ps == self.parts.deep_view(),
                found == (texts_of(ps.subrange(0, i as int)).len() > 0),
                acc@ == join(texts_of(ps.subrange(0, i as int)), "\n"@),
            decreases self.parts.len() - i,
        {
            assert(ps.subrange(0, i + 1).drop_last() =~= ps.subrange(0, i as int));
            match self.parts[i].as_text() {
                Some(t) => {
                    let ghost prev = texts_of(ps.subrange(0, i as int));
                    if found {
                        acc.append("\n");
                    }
                    acc.append(t);
                    found = true;
                    proof {
                        let now = texts_of(ps.subrange(0, i + 1));
                        assert(now == prev.push(t@));
                        if prev.len() > 0 {
                            assert(now.drop_last() =~= prev);
                        } else {
                            assert(acc@ =~= t@);
                        }
                    }
                }
                None => {}
            }
            i = i + 1;
        }
        assert(ps.subrange(0, self.parts.len() as int) =~= ps);
        if found { Some(acc) } else { None }
    }
}

} // verus!
