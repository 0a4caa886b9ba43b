//! The server call context: who makes a request, which extensions it asks
//! for and activates, and state that middleware and handlers share.

use vstd::prelude::*;
use crate::types::Metadata;

verus! {

/// A user making a request to the server.
pub trait User {
    /// Whether the user is authenticated.
    spec fn authenticated_spec(&self) -> bool;

    /// The user's display name.
    spec fn name_spec(&self) -> Seq<char>;

    /// The user's unique identifier, if known.
    spec fn id_spec(&self) -> Option<Seq<char>>;

    /// Whether the user is authenticated.
    fn is_authenticated(&self) -> (r: bool)
        ensures
            r == self.authenticated_spec(),
    ;

    /// The user's display name.
    fn user_name(&self) -> (r: &str)
        ensures
            r@ == self.name_spec(),
    ;

    /// The user's unique identifier, if known.
    fn user_id(&self) -> (r: Option<&str>)
        ensures
            match self.id_spec() {
                Some(i) => r matches Some(x) && x@ == i,
                None => r is None,
            },
    ;
}

/// A user that is not authenticated, named `anonymous`.
#[derive(Debug, Clone, Copy, Default)]
pub struct UnauthenticatedUser;

impl User for UnauthenticatedUser {
    open spec fn authenticated_spec(&self) -> bool {
        false
    }

    open spec fn name_spec(&self) -> Seq<char> {
        "anonymous"@
    }

    open spec fn id_spec(&self) -> Option<Seq<char>> {
        None
    }

    fn is_authenticated(&self) -> (r: bool) {
        false
    }

    fn user_name(&self) -> (r: &str) {
        "anonymous"
    }

    fn user_id(&self) -> (r: Option<&str>) {
        None
    }
}

/// An authenticated user with an id and a display name.
#[derive(Debug)]
pub struct AuthenticatedUser {
    /// The user's unique identifier.
    pub id: String,
    /// The user's display name.
    pub name: String,
}

impl AuthenticatedUser {
    /// An authenticated user with the given id and name.
    pub fn new(id: &str, name: &str) -> (r: Self)
        ensures
            r.id@ == id@,
            r.name@ == name@,
    {
        AuthenticatedUser { id: id.to_owned(), name: name.to_owned() }
    }
}

impl Clone for AuthenticatedUser {
    fn clone(&self) -> (r: Self)
        ensures
            r.id@ == self.id@,
            r.name@ == self.name@,
    {
        AuthenticatedUser { id: self.id.clone(), name: self.name.clone() }
    }
}

impl User for AuthenticatedUser {
    open spec fn authenticated_spec(&self) -> bool {
        true
    }

    open spec fn name_spec(&self) -> Seq<char> {
        self.name@
    }

    open spec fn id_spec(&self) -> Option<Seq<char>> {
        Some(self.id@)
    }

    fn is_authenticated(&self) -> (r: bool) {
        true
    }

    fn user_name(&self) -> (r: &str) {
        self.name.as_str()
    }

    fn user_id(&self) -> (r: Option<&str>) {
        Some(self.id.as_str())
    }
}

/// The user of a call, as it presented itself when the context was made.
#[derive(Debug)]
pub struct Caller {
    authenticated: bool,
    name: String,
    id: Option<String>,
}

impl Caller {
    /// Takes what `user` tells of itself.
    pub fn of<U: User>(user: &U) -> (r: Self)
        ensures
            r.authenticated_spec() == user.authenticated_spec(),
            r.name_spec() == user.name_spec(),
            r.id_spec() == user.id_spec(),
    {
        let id = match user.user_id() {
            Some(i) => Some(i.to_owned()),
            None => None,
        };
        Caller { authenticated: user.is_authenticated(), name: user.user_name().to_owned(), id }
    }
}

impl Clone for Caller {
    fn clone(&self) -> (r: Self)
        ensures
            r.authenticated_spec() == self.authenticated_spec(),
            r.name_spec() == self.name_spec(),
            r.id_spec() == self.id_spec(),
    {
        Caller {
            authenticated: self.authenticated,
            name: self.name.clone(),
            id: crate::types::clone_opt_string(&self.id),
        }
    }
}

impl User for Caller {
    closed spec fn authenticated_spec(&self) -> bool {
        self.authenticated
    }

    closed spec fn name_spec(&self) -> Seq<char> {
        self.name@
    }

    closed spec fn id_spec(&self) -> Option<Seq<char>> {
        self.id.deep_view()
    }

    fn is_authenticated(&self) -> (r: bool) {
        self.authenticated
    }

    fn user_name(&self) -> (r: &str) {
        self.name.as_str()
    }

    fn user_id(&self) -> (r: Option<&str>) {
        match &self.id {
            Some(i) => Some(i.as_str()),
            None => None,
        }
    }
}

/// Whether `x` occurs among the strings `list`.
pub open spec fn has_text(list: Seq<Seq<char>>, x: Seq<char>) -> bool {
    exists|i: int| 0 <= i < list.len() && list[i] == x
}

/// A list of strings with `x` added at the end when it is not there yet.
pub open spec fn with_text(list: Seq<Seq<char>>, x: Seq<char>) -> Seq<Seq<char>> {
    if has_text(list, x) { list } else { list.push(x) }
}

/// Whether `x` occurs in a list of strings.
fn contains_string(list: &Vec<String>, x: &str) -> (r: bool)
    ensures
        r == has_text(list.deep_view(), x@),
{
    let ghost l = list.deep_view();
    let mut i: usize = 0;
    while i < list.len()
        invariant
            i <= list.len(),
            l == list.deep_view(),
            forall|j: int| 0 <= j < i ==> l[j] != x@,
        decreases list.len() - i,
    {
        if crate::text::str_eq(list[i].as_str(), x) {
            assert(l[i as int] == x@);
            return true;
        }
        i = i + 1;
    }
    false
}

/// Adds `x` to a list of strings unless it is there already.
fn add_string(list: &mut Vec<String>, x: &str)
    ensures
        final(list).deep_view() == with_text(old(list).deep_view(), x@),
{
    if !contains_string(list, x) {
        let ghost before = list.deep_view();
        list.push(x.to_owned());
        assert(list.deep_view() =~= before.push(x@));
    }
}

/// Request-scoped information of a server call: the user, the extensions the
/// client asked for and those activated for the response (each listed once),
/// and state shared by middleware and handlers.
#[derive(Debug)]
pub struct ServerCallContext {
    user: Caller,
    /// Extensions requested by the client.
    pub requested_extensions: Vec<String>,
    /// Extensions activated for the response.
    pub activated_extensions: Vec<String>,
    /// State data for middleware and handlers.
    pub state: Metadata,
}

impl ServerCallContext {
    /// The user making the request.
    pub closed spec fn caller(self) -> Caller {
        self.user
    }

    /// The extensions requested by the client.
    pub closed spec fn requested(self) -> Seq<Seq<char>> {
        self.requested_extensions.deep_view()
    }

    /// The extensions activated for the response.
    pub closed spec fn activated(self) -> Seq<Seq<char>> {
        self.activated_extensions.deep_view()
    }

    /// The state entries.
    pub closed spec fn state_map(self) -> Map<Seq<char>, serde_json::Value> {
        self.state.as_map()
    }

    /// A context of an unauthenticated user, with no extension and no state.
    pub fn new() -> (r: Self)
        ensures
            !r.caller().authenticated_spec(),
            r.caller().name_spec() == "anonymous"@,
            r.requested() == Seq::<Seq<char>>::empty(),
            r.activated() == Seq::<Seq<char>>::empty(),
            r.state_map() == Map::<Seq<char>, serde_json::Value>::empty(),
    {
        Self::with_user(&UnauthenticatedUser)
    }

    /// A context of the given user, with no extension and no state.
    pub fn with_user<U: User>(user: &U) -> (r: Self)
        ensures
            r.caller().authenticated_spec() == user.authenticated_spec(),
            r.caller().name_spec() == user.name_spec(),
            r.caller().id_spec() == user.id_spec(),
            r.requested() == Seq::<Seq<char>>::empty(),
            r.activated() == Seq::<Seq<char>>::empty(),
            r.state_map() == Map::<Seq<char>, serde_json::Value>::empty(),
    {
        let r = ServerCallContext {
            user: Caller::of(user),
            requested_extensions: Vec::new(),
            activated_extensions: Vec::new(),
            state: Metadata::new(),
        };
        assert(r.requested() =~= Seq::<Seq<char>>::empty());
        assert(r.activated() =~= Seq::<Seq<char>>::empty());
        r
    }

    /// The user making the request.
    pub fn user(&self) -> (r: &Caller)
        ensures
            *r == self.caller(),
    {
        &self.user
    }

    /// Whether the user is authenticated.
    pub fn is_authenticated(&self) -> (r: bool)
        ensures
            r == self.caller().authenticated_spec(),
    {
        self.user.is_authenticated()
    }

    /// The user's display name.
    pub fn user_name(&self) -> (r: &str)
        ensures
            r@ == self.caller().name_spec(),
    {
        self.user.user_name()
    }

    /// Replaces the requested extensions by `extensions`, each listed once.
    pub fn set_requested_extensions(&mut self, extensions: Vec<String>)
        ensures
            forall|x: Seq<char>| has_text(final(self).requested(), x) == has_text(extensions.deep_view(), x),
            final(self).activated() == old(self).activated(),
            final(self).caller() == old(self).caller(),
            final(self).state_map() == old(self).state_map(),
    {
        let mut out: Vec<String> = Vec::new();
        let mut i: usize = 0;
        while i < extensions.len()
            invariant
                i <= extensions.len(),
                forall|x: Seq<char>| has_text(out.deep_view(), x) == has_text(extensions.deep_view().subrange(0, i as int), x),
            decreases extensions.len() - i,
        {
            let ghost before = out.deep_view();
            let ghost pre = extensions.deep_view().subrange(0, i as int);
            assert(forall|x: Seq<char>| has_text(before, x) == has_text(pre, x));
            add_string(&mut out, extensions[i].as_str());
            proof {
                let sub = extensions.deep_view().subrange(0, i + 1);
                assert(sub =~= extensions.deep_view().subrange(0, i as int).push(extensions.deep_view()[i as int]));
                let e = extensions.deep_view()[i as int];
                assert forall|x: Seq<char>| has_text(out.deep_view(), x) == has_text(sub, x) by {
                    let o = out.deep_view();
                    assert(has_text(before, x) == has_text(pre, x));
                    if has_text(o, x) {
                        let k = choose|k: int| 0 <= k < o.len() && o[k] == x;
                        if k < before.len() {
                            assert(before[k] == x);
                            assert(has_text(before, x));
                            let m = choose|m: int| 0 <= m < pre.len() && pre[m] == x;
                            assert(sub[m] == x);
                        } else {
                            assert(x == e);
                            assert(sub[i as int] == x);
                        }
                    }
                    if has_text(sub, x) {
                        let k = choose|k: int| 0 <= k < sub.len() && sub[k] == x;
                        if k < i {
                            assert(pre[k] == x);
                            assert(has_text(pre, x));
                            let m = choose|m: int| 0 <= m < before.len() && before[m] == x;
                            if has_text(before, e) {
                                assert(o[m] == x);
                            } else {
                                assert(o[m] == x);
                            }
                        } else {
                            assert(x == e);
                            if has_text(before, e) {
                                let m = choose|m: int| 0 <= m < before.len() && before[m] == e;
                                assert(o[m] == x);
                            } else {
                                assert(o[before.len() as int] == x);
                            }
                        }
                    }
                }
            }
            i = i + 1;
        }
        assert(extensions.deep_view().subrange(0, extensions.len() as int) =~= extensions.deep_view());
        self.requested_extensions = out;
    }

    /// Adds a requested extension.
    pub fn add_requested_extension(&mut self, extension: &str)
        ensures
            final(self).requested() == with_text(old(self).requested(), extension@),
            final(self).activated() == old(self).activated(),
            final(self).caller() == old(self).caller(),
            final(self).state_map() == old(self).state_map(),
    {
        add_string(&mut self.requested_extensions, extension);
    }

    /// Whether the client asked for the extension.
    pub fn is_extension_requested(&self, extension: &str) -> (r: bool)
        ensures
            r == has_text(self.requested(), extension@),
    {
        contains_string(&self.requested_extensions, extension)
    }

    /// Activates an extension for the response.
    pub fn activate_extension(&mut self, extension: &str)
        ensures
            final(self).activated() == with_text(old(self).activated(), extension@),
            final(self).requested() == old(self).requested(),
            final(self).caller() == old(self).caller(),
            final(self).state_map() == old(self).state_map(),
    {
        add_string(&mut self.activated_extensions, extension);
    }

    /// Whether the extension is activated.
    pub fn is_extension_activated(&self, extension: &str) -> (r: bool)
        ensures
            r == has_text(self.activated(), extension@),
    {
        contains_string(&self.activated_extensions, extension)
    }

    /// The state value under `key`.
    pub fn get_state(&self, key: &str) -> (r: Option<&serde_json::Value>)
        ensures
            match r {
                Some(v) => self.state_map().contains_key(key@) && self.state_map()[key@] == *v,
                None => !self.state_map().contains_key(key@),
            },
    {
        self.state.get(key)
    }

    /// Sets the state value under `key`.
    pub fn set_state(&mut self, key: &str, value: serde_json::Value)
        ensures
            final(self).state_map() == old(self).state_map().insert(key@, value),
            final(self).requested() == old(self).requested(),
            final(self).activated() == old(self).activated(),
            final(self).caller() == old(self).caller(),
    {
        let _ = self.state.insert(key.to_owned(), value);
    }

    /// Removes the state value under `key`, returning it.
    pub fn remove_state(&mut self, key: &str) -> (r: Option<serde_json::Value>)
        ensures
            final(self).state_map() == old(self).state_map().remove(key@),
            match r {
                Some(v) => old(self).state_map().contains_key(key@) && old(self).state_map()[key@] == v,
                None => !old(self).state_map().contains_key(key@),
            },
            final(self).requested() == old(self).requested(),
            final(self).activated() == old(self).activated(),
            final(self).caller() == old(self).caller(),
    {
        self.state.remove(key)
    }

    /// The HTTP method, when the state holds it as a JSON string (under
    /// `method`).
    pub fn http_method(&self) -> (r: Option<&str>)
        ensures
            match r {
                Some(m) => self.state_map().contains_key("method"@) && crate::external::json_text(
                    self.state_map()["method"@],
                ) == Some(m@),
                None => !self.state_map().contains_key("method"@) || crate::external::json_text(
                    self.state_map()["method"@],
                ) is None,
            },
    {
        match self.get_state("method") {
            Some(v) => crate::external::json_as_str(v),
            None => None,
        }
    }

    /// The request headers, when the state holds them (under `headers`).
    pub fn headers(&self) -> (r: Option<&serde_json::Value>)
        ensures
            match r {
                Some(v) => self.state_map().contains_key("headers"@) && self.state_map()["headers"@] == *v,
                None => !self.state_map().contains_key("headers"@),
            },
    {
        self.get_state("headers")
    }
}

/// Builds a server call context step by step.
#[derive(Debug)]
pub struct ServerCallContextBuilder {
    user: Option<Caller>,
    requested_extensions: Vec<String>,
    state: Metadata,
}

impl ServerCallContextBuilder {
    /// The user set so far, if any.
    pub closed spec fn builder_user(self) -> Option<Caller> {
        self.user
    }

    /// The extensions requested so far.
    pub closed spec fn builder_requested(self) -> Seq<Seq<char>> {
        self.requested_extensions.deep_view()
    }

    /// The state set so far.
    pub closed spec fn builder_state(self) -> Map<Seq<char>, serde_json::Value> {
        self.state.as_map()
    }

    /// A builder without user, extensions or state.
    pub fn new() -> (r: Self)
        ensures
            r.builder_user() is None,
            r.builder_requested() == Seq::<Seq<char>>::empty(),
            r.builder_state() == Map::<Seq<char>, serde_json::Value>::empty(),
    {
        let r = ServerCallContextBuilder { user: None, requested_extensions: Vec::new(), state: Metadata::new() };
        assert(r.builder_requested() =~= Seq::<Seq<char>>::empty());
        r
    }

    /// Sets the user.
    pub fn user<U: User>(self, user: &U) -> (r: Self)
        ensures
            r.builder_user() matches Some(c) && c.authenticated_spec() == user.authenticated_spec()
                && c.name_spec() == user.name_spec() && c.id_spec() == user.id_spec(),
            r.builder_requested() == self.builder_requested(),
            r.builder_state() == self.builder_state(),
    {
        ServerCallContextBuilder { user: Some(Caller::of(user)), ..self }
    }

    /// Adds a requested extension.
    pub fn requested_extension(self, extension: &str) -> (r: Self)
        ensures
            r.builder_user() == self.builder_user(),
            r.builder_requested() == with_text(self.builder_requested(), extension@),
            r.builder_state() == self.builder_state(),
    {
        let mut list = self.requested_extensions;
        add_string(&mut list, extension);
        ServerCallContextBuilder { user: self.user, requested_extensions: list, state: self.state }
    }

    /// Adds a state value.
    pub fn state(self, key: &str, value: serde_json::Value) -> (r: Self)
        ensures
            r.builder_user() == self.builder_user(),
            r.builder_requested() == self.builder_requested(),
            r.builder_state() == self.builder_state().insert(key@, value),
    {
        let mut st = self.state;
        let _ = st.insert(key.to_owned(), value);
        ServerCallContextBuilder { user: self.user, requested_extensions: self.requested_extensions, state: st }
    }

    /// The context: the user set (an unauthenticated one when none was),
    /// the requested extensions, no activated extension, and the state.
    pub fn build(self) -> (r: ServerCallContext)
        ensures
            match self.builder_user() {
                Some(c) => r.caller() == c,
                None => !r.caller().authenticated_spec() && r.caller().name_spec() == "anonymous"@,
            },
            r.requested() == self.builder_requested(),
            r.activated() == Seq::<Seq<char>>::empty(),
            r.state_map() == self.builder_state(),
    {
        let user = match self.user {
            Some(c) => c,
            None => Caller::of(&UnauthenticatedUser),
        };
        let r = ServerCallContext {
            user,
            requested_extensions: self.requested_extensions,
            activated_extensions: Vec::new(),
            state: self.state,
        };
        assert(r.activated() =~= Seq::<Seq<char>>::empty());
        r
    }
}

} // verus!
