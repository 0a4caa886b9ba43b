//! Identifiers for tasks, contexts, messages and artifacts.

use vstd::prelude::*;

verus! {

/// Unique identifier for a task.
#[derive(Debug, PartialEq, Eq, Hash)]
pub struct TaskId(pub String);

/// Unique identifier for a context (conversation grouping).
#[derive(Debug, PartialEq, Eq, Hash)]
pub struct ContextId(pub String);

/// Unique identifier for a message.
#[derive(Debug, PartialEq, Eq, Hash)]
pub struct MessageId(pub String);

/// Unique identifier for an artifact, scoped to a task.
#[derive(Debug, PartialEq, Eq, Hash)]
pub struct ArtifactId(pub String);

impl View for TaskId {
    type V = Seq<char>;

    open spec fn view(&self) -> Seq<char> {
        self.0@
    }
}

impl DeepView for TaskId {
    type V = Seq<char>;

    open spec fn deep_view(&self) -> Seq<char> {
        self.0@
    }
}

impl View for ContextId {
    type V = Seq<char>;

    open spec fn view(&self) -> Seq<char> {
        self.0@
    }
}

impl DeepView for ContextId {
    type V = Seq<char>;

    open spec fn deep_view(&self) -> Seq<char> {
        self.0@
    }
}

impl View for MessageId {
    type V = Seq<char>;

    open spec fn view(&self) -> Seq<char> {
        self.0@
    }
}

impl DeepView for MessageId {
    type V = Seq<char>;

    open spec fn deep_view(&self) -> Seq<char> {
        self.0@
    }
}

impl View for ArtifactId {
    type V = Seq<char>;

    open spec fn view(&self) -> Seq<char> {
        self.0@
    }
}

impl DeepView for ArtifactId {
    type V = Seq<char>;

    open spec fn deep_view(&self) -> Seq<char> {
        self.0@
    }
}

impl TaskId {
    /// A new identifier holding a random time-ordered UUID.
    pub fn random() -> (r: Self)
        ensures
            crate::external::is_uuid_text_of_version(r@, '7'),
    {
        TaskId(crate::external::new_uuid_v7_text())
    }

    /// An identifier holding the given text.
    pub fn from_string(s: &str) -> (r: Self)
        ensures
            r@ == s@,
    {
        TaskId(s.to_owned())
    }

    /// The identifier's text.
    pub fn as_str(&self) -> (r: &str)
        ensures
            r@ == self@,
    {
        self.0.as_str()
    }

    /// Whether the identifier is empty.
    pub fn is_empty(&self) -> (r: bool)
        ensures
            r == (self@.len() == 0),
    {
        self.0.as_str().unicode_len() == 0
    }
}

impl ContextId {
    /// A new identifier holding a random time-ordered UUID.
    pub fn random() -> (r: Self)
        ensures
            crate::external::is_uuid_text_of_version(r@, '7'),
    {
        ContextId(crate::external::new_uuid_v7_text())
    }

    /// An identifier holding the given text.
    pub fn from_string(s: &str) -> (r: Self)
        ensures
            r@ == s@,
    {
        ContextId(s.to_owned())
    }

    /// The identifier's text.
    pub fn as_str(&self) -> (r: &str)
        ensures
            r@ == self@,
    {
        self.0.as_str()
    }

    /// Whether the identifier is empty.
    pub fn is_empty(&self) -> (r: bool)
        ensures
            r == (self@.len() == 0),
    {
        self.0.as_str().unicode_len() == 0
    }
}

impl MessageId {
    /// A new identifier holding a random time-ordered UUID.
    pub fn random() -> (r: Self)
        ensures
            crate::external::is_uuid_text_of_version(r@, '7'),
    {
        MessageId(crate::external::new_uuid_v7_text())
    }

    /// An identifier holding the given text.
    pub fn from_string(s: &str) -> (r: Self)
        ensures
            r@ == s@,
    {
        MessageId(s.to_owned())
    }

    /// The identifier's text.
    pub fn as_str(&self) -> (r: &str)
        ensures
            r@ == self@,
    {
        self.0.as_str()
    }

    /// Whether the identifier is empty.
    pub fn is_empty(&self) -> (r: bool)
        ensures
            r == (self@.len() == 0),
    {
        self.0.as_str().unicode_len() == 0
    }
}

impl ArtifactId {
    /// A new identifier holding a random time-ordered UUID.
    pub fn random() -> (r: Self)
        ensures
            crate::external::is_uuid_text_of_version(r@, '7'),
    {
        ArtifactId(crate::external::new_uuid_v7_text())
    }

    /// An identifier holding the given text.
    pub fn from_string(s: &str) -> (r: Self)
        ensures
            r@ == s@,
    {
        ArtifactId(s.to_owned())
    }

    /// The identifier's text.
    pub fn as_str(&self) -> (r: &str)
        ensures
            r@ == self@,
    {
        self.0.as_str()
    }

    /// Whether the identifier is empty.
    pub fn is_empty(&self) -> (r: bool)
        ensures
            r == (self@.len() == 0),
    {
        self.0.as_str().unicode_len() == 0
    }
}

impl Clone for TaskId {
    fn clone(&self) -> (r: Self)
        ensures
            r@ == self@,
    {
        TaskId(self.0.clone())
    }
}

impl Clone for ContextId {
    fn clone(&self) -> (r: Self)
        ensures
            r@ == self@,
    {
        ContextId(self.0.clone())
    }
}

impl Clone for MessageId {
    fn clone(&self) -> (r: Self)
        ensures
            r@ == self@,
    {
        MessageId(self.0.clone())
    }
}

impl Clone for ArtifactId {
    fn clone(&self) -> (r: Self)
        ensures
            r@ == self@,
    {
        ArtifactId(self.0.clone())
    }
}

/// Copies a list of values whose `clone` keeps the deep view.
pub fn clone_vec<T: Clone + DeepView>(v: &Vec<T>) -> (r: Vec<T>)
    requires
        forall|x: &T, y: T| #[trigger] call_ensures(T::clone, (x,), y) ==> y.deep_view() == x.deep_view(),
    ensures
        r.deep_view() == v.deep_view(),
        r@.len() == v@.len(),
{
    let mut out: Vec<T> = Vec::new();
    let mut i: usize = 0;
    while i < v.len()
        invariant
            i <= v.len(),
            out@.len() == i,
            forall|x: &T, y: T| #[trigger] call_ensures(T::clone, (x,), y) ==> y.deep_view() == x.deep_view(),
            forall|j: int| 0 <= j < i ==> #[trigger] out@[j].deep_view() == v@[j].deep_view(),
        decreases v.len() - i,
    {
        let c = v[i].clone();
        out.push(c);
        i = i + 1;
    }
    assert(out.deep_view() =~= v.deep_view());
    out
}

} // verus!
