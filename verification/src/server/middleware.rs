//! Call-scope data: request metadata with case-insensitive keys, the user
//! of a call, and the call context that interceptors and handlers share.

use vstd::prelude::*;
use crate::external::lowercase;
use crate::error::A2AError;

verus! {

/// The request metadata key whose values are the extension URIs a client asks for.
pub const EXTENSIONS_META_KEY: &'static str = "X-A2A-Extensions";

/// A metadata entry by value: a key and its values.
pub type MetaEntryView = (Seq<char>, Seq<Seq<char>>);

/// `i` is the first position of an entry with key `k`.
pub open spec fn is_first_key(s: Seq<MetaEntryView>, k: Seq<char>, i: int) -> bool {
    &&& 0 <= i < s.len()
    &&& s[i].0 == k
    &&& forall|j: int| 0 <= j < i ==> s[j].0 != k
}

/// The first position of an entry with key `k`, if any.
pub open spec fn find_key(s: Seq<MetaEntryView>, k: Seq<char>) -> Option<int> {
    if exists|i: int| is_first_key(s, k, i) {
        Some(choose|i: int| is_first_key(s, k, i))
    } else {
        None
    }
}

/// The values under key `k`, if any.
pub open spec fn meta_lookup(s: Seq<MetaEntryView>, k: Seq<char>) -> Option<Seq<Seq<char>>> {
    match find_key(s, k) {
        Some(i) => Some(s[i].1),
        None => None,
    }
}

/// The entries after setting key `k` to `v`: in place when `k` is present,
/// else at the end.
pub open spec fn meta_insert(s: Seq<MetaEntryView>, k: Seq<char>, v: Seq<Seq<char>>) -> Seq<MetaEntryView> {
    match find_key(s, k) {
        Some(i) => s.update(i, (k, v)),
        None => s.push((k, v)),
    }
}

/// The entries after setting each pair of `src` in turn, its key lower-cased.
pub open spec fn meta_insert_all(s: Seq<MetaEntryView>, src: Seq<MetaEntryView>) -> Seq<MetaEntryView>
    decreases src.len(),
{
    if src.len() == 0 {
        s
    } else {
        meta_insert(meta_insert_all(s, src.drop_last()), lowercase(src.last().0), src.last().1)
    }
}

proof fn lemma_first_key_unique(s: Seq<MetaEntryView>, k: Seq<char>, i: int)
    requires
        is_first_key(s, k, i),
    ensures
        find_key(s, k) == Some(i),
{
    let m = choose|m: int| is_first_key(s, k, m);
    assert(is_first_key(s, k, m));
    if m < i {
        assert(s[m].0 != k);
    }
    if i < m {
        assert(s[i].0 != k);
    }
}

proof fn lemma_no_key(s: Seq<MetaEntryView>, k: Seq<char>)
    requires
        forall|j: int| 0 <= j < s.len() ==> s[j].0 != k,
    ensures
        find_key(s, k) is None,
{
    assert forall|m: int| !is_first_key(s, k, m) by {
        if 0 <= m < s.len() {
            assert(s[m].0 != k);
        }
    }
}

/// The view of a list of metadata entries.
pub open spec fn meta_view(v: Seq<(String, Vec<String>)>) -> Seq<MetaEntryView> {
    v.map_values(|e: (String, Vec<String>)| (e.0@, e.1.deep_view()))
}

/// Position of the first entry with key `key`.
fn find_entry(entries: &Vec<(String, Vec<String>)>, key: &str) -> (r: Option<usize>)
    ensures
        match r {
            Some(i) => find_key(meta_view(entries@), key@) == Some(i as int),
            None => find_key(meta_view(entries@), key@) is None,
        },
{
    let ghost s = meta_view(entries@);
    let mut i: usize = 0;
    while i < entries.len()
        invariant
            i <= entries.len(),
            s == meta_view(entries@),
            forall|j: int| 0 <= j < i ==> s[j].0 != key@,
        decreases entries.len() - i,
    {
        if crate::text::str_eq(entries[i].0.as_str(), key) {
            proof { lemma_first_key_unique(s, key@, i as int); }
            return Some(i);
        }
        i = i + 1;
    }
    proof { lemma_no_key(s, key@); }
    None
}

/// Sets `key` to `values` in a list of entries.
fn insert_entry(entries: &mut Vec<(String, Vec<String>)>, key: String, values: Vec<String>)
    ensures
        meta_view(final(entries)@) == meta_insert(meta_view(old(entries)@), key@, values.deep_view()),
{
    let ghost s = meta_view(entries@);
    let ghost kv = (key@, values.deep_view());
    match find_entry(entries, key.as_str()) {
        Some(i) => {
            entries.set(i, (key, values));
            assert(meta_view(entries@) =~= s.update(i as int, kv));
        }
        None => {
            entries.push((key, values));
            assert(meta_view(entries@) =~= s.push(kv));
        }
    }
}

/// Copies a list of strings.
fn copy_strings(v: &Vec<String>) -> (r: Vec<String>)
    ensures
        r.deep_view() == v.deep_view(),
{
    crate::types::clone_strings(v)
}

/// Metadata of a request (such as HTTP headers): keys, stored lower-cased,
/// each with a list of values. Lookups ignore case.
#[derive(Debug)]
pub struct RequestMeta {
    kv: Vec<(String, Vec<String>)>,
}

impl RequestMeta {
    /// The entries, in the order their keys first came.
    pub closed spec fn entries(self) -> Seq<MetaEntryView> {
        meta_view(self.kv@)
    }

    /// No key occurs twice, and each key is a lower-case form.
    #[verifier::type_invariant]
    spec fn keys_well_formed(self) -> bool {
        keys_distinct(meta_view(self.kv@)) && keys_lowered(meta_view(self.kv@))
    }

    /// Metadata from key/value pairs, each key lower-cased; a later pair with
    /// the same lower-cased key replaces an earlier one.
    pub fn new(src: Vec<(String, Vec<String>)>) -> (r: Self)
        ensures
            r.entries() == meta_insert_all(Seq::empty(), meta_view(src@)),
    {
        let mut kv: Vec<(String, Vec<String>)> = Vec::new();
        let ghost sv = meta_view(src@);
        let mut i: usize = 0;
        while i < src.len()
            invariant
                i <= src.len(),
                sv == meta_view(src@),
                meta_view(kv@) == meta_insert_all(Seq::empty(), sv.subrange(0, i as int)),
            decreases src.len() - i,
        {
            let k = crate::external::to_lowercase(src[i].0.as_str());
            let v = copy_strings(&src[i].1);
            proof {
                assert(sv.subrange(0, i + 1).drop_last() =~= sv.subrange(0, i as int));
                assert(sv.subrange(0, i + 1).last() == sv[i as int]);
            }
            insert_entry(&mut kv, k, v);
            i = i + 1;
        }
        assert(sv.subrange(0, src.len() as int) =~= sv);
        proof {
            lemma_meta_insert_all_keys(Seq::empty(), sv);
        }
        RequestMeta { kv }
    }

    /// Metadata without entries.
    pub fn empty() -> (r: Self)
        ensures
            r.entries() == Seq::<MetaEntryView>::empty(),
    {
        let r = RequestMeta { kv: Vec::new() };
        assert(r.entries() =~= Seq::<MetaEntryView>::empty());
        r
    }

    /// The values under `key`, whatever its case.
    pub fn get(&self, key: &str) -> (r: Option<&[String]>)
        ensures
            match meta_lookup(self.entries(), lowercase(key@)) {
                Some(v) => r matches Some(x) && x@.map_values(|s: String| s@) == v,
                None => r is None,
            },
    {
        let k = crate::external::to_lowercase(key);
        match find_entry(&self.kv, k.as_str()) {
            Some(i) => {
                let vals = self.kv[i].1.as_slice();
                assert(vals@.map_values(|s: String| s@) =~= self.kv[i as int].1.deep_view());
                Some(vals)
            }
            None => None,
        }
    }

    /// The entries, in order: no key occurs twice, and each key is a
    /// lower-case form.
    pub fn iter(&self) -> (r: &Vec<(String, Vec<String>)>)
        ensures
            meta_view(r@) == self.entries(),
            keys_distinct(self.entries()),
            keys_lowered(self.entries()),
            forall|i: int| 0 <= i < r@.len() ==> meta_lookup(self.entries(), #[trigger] r@[i].0@) == Some(
                r@[i].1.deep_view(),
            ),
            forall|q: Seq<char>|
                #[trigger] meta_lookup(self.entries(), lowercase(q)) is Some ==> exists|i: int|
                    0 <= i < r@.len() && #[trigger] r@[i].0@ == lowercase(q),
    {
        proof {
            use_type_invariant(self);
            lemma_meta_iter_law(self.entries());
            assert forall|i: int| 0 <= i < self.kv@.len() implies meta_lookup(self.entries(), #[trigger] self.kv@[i].0@)
                == Some(self.kv@[i].1.deep_view()) by {
                assert(self.entries()[i] == (self.kv@[i].0@, self.kv@[i].1.deep_view()));
                assert(meta_lookup(self.entries(), self.entries()[i].0) == Some(self.entries()[i].1));
            }
            assert forall|q: Seq<char>| #[trigger] meta_lookup(self.entries(), lowercase(q)) is Some implies exists|i: int|
                0 <= i < self.kv@.len() && #[trigger] self.kv@[i].0@ == lowercase(q) by {
                let i = choose|i: int| 0 <= i < self.entries().len() && #[trigger] self.entries()[i].0 == lowercase(q);
                assert(self.entries()[i] == (self.kv@[i].0@, self.kv@[i].1.deep_view()));
            }
        }
        &self.kv
    }

    /// A copy with the pairs of `additional` set on top, each key lower-cased.
    pub fn with(&self, additional: Vec<(String, Vec<String>)>) -> (r: Self)
        ensures
            r.entries() == meta_insert_all(self.entries(), meta_view(additional@)),
    {
        proof { use_type_invariant(self); }
        let mut kv: Vec<(String, Vec<String>)> = Vec::new();
        let mut j: usize = 0;
        while j < self.kv.len()
            invariant
                j <= self.kv.len(),
                meta_view(kv@) == meta_view(self.kv@).subrange(0, j as int),
            decreases self.kv.len() - j,
        {
            let k = self.kv[j].0.clone();
            let v = copy_strings(&self.kv[j].1);
            let ghost before = meta_view(kv@);
            let ghost e = (k@, v.deep_view());
            kv.push((k, v));
            assert(meta_view(kv@) =~= before.push(e));
            assert(e == meta_view(self.kv@)[j as int]);
            assert(meta_view(kv@) =~= meta_view(self.kv@).subrange(0, j + 1));
            j = j + 1;
        }
        assert(meta_view(self.kv@).subrange(0, self.kv.len() as int) =~= meta_view(self.kv@));
        let ghost sv = meta_view(additional@);
        let mut i: usize = 0;
        while i < additional.len()
            invariant
                i <= additional.len(),
                sv == meta_view(additional@),
                meta_view(kv@) == meta_insert_all(meta_view(self.kv@), sv.subrange(0, i as int)),
            decreases additional.len() - i,
        {
            let k = crate::external::to_lowercase(additional[i].0.as_str());
            let v = copy_strings(&additional[i].1);
            proof {
                assert(sv.subrange(0, i + 1).drop_last() =~= sv.subrange(0, i as int));
                assert(sv.subrange(0, i + 1).last() == sv[i as int]);
            }
            insert_entry(&mut kv, k, v);
            i = i + 1;
        }
        assert(sv.subrange(0, additional.len() as int) =~= sv);
        proof {
            lemma_meta_insert_all_keys(meta_view(self.kv@), sv);
        }
        RequestMeta { kv }
    }
}

impl Default for RequestMeta {
    fn default() -> (r: Self)
        ensures
            r.entries() == Seq::<MetaEntryView>::empty(),
    {
        Self::empty()
    }
}

impl Clone for RequestMeta {
    fn clone(&self) -> (r: Self)
        ensures
            r.entries() == self.entries(),
    {
        self.with(Vec::new())
    }
}

/// The user of a call, authenticated or not.
pub trait User {
    /// The user's name.
    spec fn user_name(&self) -> Seq<char>;

    /// Whether the request was authenticated.
    spec fn is_authenticated(&self) -> bool;

    /// The user's name.
    fn name(&self) -> (r: &str)
        ensures
            r@ == self.user_name(),
    ;

    /// Whether the request was authenticated.
    fn authenticated(&self) -> (r: bool)
        ensures
            r == self.is_authenticated(),
    ;
}

/// An authenticated user known by name.
#[derive(Debug)]
pub struct AuthenticatedUser {
    /// The user's name.
    pub username: String,
}

impl AuthenticatedUser {
    /// An authenticated user with the given name.
    pub fn new(username: &str) -> (r: Self)
        ensures
            r.username@ == username@,
    {
        AuthenticatedUser { username: username.to_owned() }
    }
}

impl Clone for AuthenticatedUser {
    fn clone(&self) -> (r: Self)
        ensures
            r.username@ == self.username@,
    {
        AuthenticatedUser { username: self.username.clone() }
    }
}

impl User for AuthenticatedUser {
    open spec fn user_name(&self) -> Seq<char> {
        self.username@
    }

    open spec fn is_authenticated(&self) -> bool {
        true
    }

    fn name(&self) -> (r: &str) {
        self.username.as_str()
    }

    fn authenticated(&self) -> (r: bool) {
        true
    }
}

/// The user of a request that was not authenticated; its name is empty.
#[derive(Debug, Clone, Copy)]
pub struct UnauthenticatedUser;

impl User for UnauthenticatedUser {
    open spec fn user_name(&self) -> Seq<char> {
        Seq::empty()
    }

    open spec fn is_authenticated(&self) -> bool {
        false
    }

    fn name(&self) -> (r: &str) {
        let r = "";
        proof { reveal_strlit(""); }
        r
    }

    fn authenticated(&self) -> (r: bool) {
        false
    }
}

/// The user attached to a call: the name and the authentication flag that
/// the user gave when it was attached.
#[derive(Debug)]
pub struct CallUser {
    name: String,
    authenticated: bool,
}

impl CallUser {
    /// Takes the name and the authentication flag of `user`.
    pub fn of<U: User>(user: &U) -> (r: Self)
        ensures
            r.user_name() == user.user_name(),
            r.is_authenticated() == user.is_authenticated(),
    {
        CallUser { name: user.name().to_owned(), authenticated: user.authenticated() }
    }

    /// The user of an unauthenticated call.
    pub fn unauthenticated() -> (r: Self)
        ensures
            r.user_name() == Seq::<char>::empty(),
            !r.is_authenticated(),
    {
        Self::of(&UnauthenticatedUser)
    }
}

impl Clone for CallUser {
    fn clone(&self) -> (r: Self)
        ensures
            r.user_name() == self.user_name(),
            r.is_authenticated() == self.is_authenticated(),
    {
        CallUser { name: self.name.clone(), authenticated: self.authenticated }
    }
}

impl User for CallUser {
    closed spec fn user_name(&self) -> Seq<char> {
        self.name@
    }

    closed spec fn is_authenticated(&self) -> bool {
        self.authenticated
    }

    fn name(&self) -> (r: &str) {
        self.name.as_str()
    }

    fn authenticated(&self) -> (r: bool) {
        self.authenticated
    }
}

/// Whether `uri` occurs among `list`.
pub open spec fn contains_text(list: Seq<Seq<char>>, uri: Seq<char>) -> bool {
    exists|i: int| 0 <= i < list.len() && list[i] == uri
}

/// Whether `uri` occurs in a list of strings.
fn any_equal(list: &[String], uri: &str) -> (r: bool)
    ensures
        r == contains_text(list@.map_values(|s: String| s@), uri@),
{
    let ghost l = list@.map_values(|s: String| s@);
    let mut i: usize = 0;
    while i < list.len()
        invariant
            i <= list.len(),
            l == list@.map_values(|s: String| s@),
            forall|j: int| 0 <= j < i ==> l[j] != uri@,
        decreases list.len() - i,
    {
        if crate::text::str_eq(list[i].as_str(), uri) {
            assert(l[i as int] == uri@);
            return true;
        }
        i = i + 1;
    }
    false
}

/// The scope of one server call: the method being handled, the request
/// metadata, the extensions activated so far, and the user.
#[derive(Debug)]
pub struct CallContext {
    method: String,
    request_meta: RequestMeta,
    activated_extensions: Vec<String>,
    /// The user of this call.
    pub user: CallUser,
}

impl CallContext {
    /// The handled method's name.
    pub closed spec fn method_name(self) -> Seq<char> {
        self.method@
    }

    /// The request metadata.
    pub closed spec fn meta(self) -> RequestMeta {
        self.request_meta
    }

    /// The user of this call.
    pub closed spec fn call_user(self) -> CallUser {
        self.user
    }

    /// The activated extension URIs, in activation order.
    pub closed spec fn activated(self) -> Seq<Seq<char>> {
        self.activated_extensions.deep_view()
    }

    /// A context for `method` with the given metadata, no activated
    /// extension and an unauthenticated user.
    pub fn new(method: &str, meta: RequestMeta) -> (r: Self)
        ensures
            r.method_name() == method@,
            r.meta() == meta,
            r.activated() == Seq::<Seq<char>>::empty(),
            r.call_user().user_name() == Seq::<char>::empty(),
            !r.call_user().is_authenticated(),
    {
        let r = CallContext {
            method: method.to_owned(),
            request_meta: meta,
            activated_extensions: Vec::new(),
            user: CallUser::unauthenticated(),
        };
        assert(r.activated() =~= Seq::<Seq<char>>::empty());
        r
    }

    /// The handled method's name.
    pub fn method(&self) -> (r: &str)
        ensures
            r@ == self.method_name(),
    {
        self.method.as_str()
    }

    /// The request metadata.
    pub fn request_meta(&self) -> (r: &RequestMeta)
        ensures
            *r == self.meta(),
    {
        &self.request_meta
    }

    /// The activated extension URIs.
    pub fn activated_extensions(&self) -> (r: &[String])
        ensures
            r@.map_values(|s: String| s@) == self.activated(),
    {
        let r = self.activated_extensions.as_slice();
        assert(r@.map_values(|s: String| s@) =~= self.activated());
        r
    }

    /// Activates an extension URI for this call.
    pub fn activate_extension(&mut self, uri: &str)
        ensures
            final(self).activated() == old(self).activated().push(uri@),
            final(self).method_name() == old(self).method_name(),
            final(self).meta() == old(self).meta(),
            final(self).call_user() == old(self).call_user(),
    {
        self.activated_extensions.push(uri.to_owned());
        assert(self.activated_extensions.deep_view() =~= old(self).activated().push(uri@));
    }

    /// Whether the extension URI is activated.
    pub fn is_extension_active(&self, uri: &str) -> (r: bool)
        ensures
            r == contains_text(self.activated(), uri@),
    {
        let r = any_equal(self.activated_extensions.as_slice(), uri);
        assert(self.activated_extensions@.map_values(|s: String| s@) =~= self.activated());
        r
    }

    /// The extension URIs the client asked for: the values of the
    /// `X-A2A-Extensions` metadata key, or none.
    pub fn requested_extension_uris(&self) -> (r: Vec<String>)
        ensures
            match meta_lookup(self.meta().entries(), lowercase(EXTENSIONS_META_KEY@)) {
                Some(v) => r.deep_view() == v,
                None => r@.len() == 0,
            },
    {
        match self.request_meta.get(EXTENSIONS_META_KEY) {
            Some(vals) => {
                let mut out: Vec<String> = Vec::new();
                let mut i: usize = 0;
                while i < vals.len()
                    invariant
                        i <= vals.len(),
                        out.deep_view() == vals@.map_values(|s: String| s@).subrange(0, i as int),
                    decreases vals.len() - i,
                {
                    let c = vals[i].clone();
                    let ghost before = out.deep_view();
                    out.push(c);
                    assert(out.deep_view() =~= before.push(vals@[i as int]@));
                    assert(out.deep_view() =~= vals@.map_values(|s: String| s@).subrange(0, i + 1));
                    i = i + 1;
                }
                assert(vals@.map_values(|s: String| s@).subrange(0, vals.len() as int) =~= vals@.map_values(
                    |s: String| s@,
                ));
                out
            }
            None => Vec::new(),
        }
    }

    /// Whether the client asked for the extension URI.
    pub fn is_extension_requested(&self, uri: &str) -> (r: bool)
        ensures
            r == (meta_lookup(self.meta().entries(), lowercase(EXTENSIONS_META_KEY@)) matches Some(v)
                && contains_text(v, uri@)),
    {
        let uris = self.requested_extension_uris();
        let r = any_equal(uris.as_slice(), uri);
        assert(uris@.map_values(|s: String| s@) =~= uris.deep_view());
        r
    }
}

/// After a key is set, looking it up gives the values set.
pub proof fn lemma_meta_get_after_insert(s: Seq<MetaEntryView>, k: Seq<char>, v: Seq<Seq<char>>)
    ensures
        meta_lookup(meta_insert(s, k, v), k) == Some(v),
{
    let ns = meta_insert(s, k, v);
    match find_key(s, k) {
        Some(_) => {
            let i = choose|i: int| is_first_key(s, k, i);
            assert(is_first_key(s, k, i));
            assert(is_first_key(ns, k, i));
            lemma_first_key_unique(ns, k, i);
        }
        None => {
            assert forall|j: int| 0 <= j < s.len() implies s[j].0 != k by {
                if s[j].0 == k {
                    lemma_key_found(s, k, j);
                }
            }
            let n = s.len() as int;
            assert(is_first_key(ns, k, n));
            lemma_first_key_unique(ns, k, n);
        }
    }
}

proof fn lemma_key_found(s: Seq<MetaEntryView>, k: Seq<char>, j: int)
    requires
        0 <= j < s.len(),
        s[j].0 == k,
    ensures
        find_key(s, k) is Some,
    decreases j,
{
    if forall|q: int| 0 <= q < j ==> s[q].0 != k {
        assert(is_first_key(s, k, j));
    } else {
        let q = choose|q: int| 0 <= q < j && s[q].0 == k;
        lemma_key_found(s, k, q);
    }
}

/// No key occurs twice among the entries.
pub open spec fn keys_distinct(s: Seq<MetaEntryView>) -> bool {
    forall|i: int, j: int| 0 <= i < j < s.len() ==> s[i].0 != s[j].0
}

/// Every key of the entries is the lower-case form of some text.
pub open spec fn keys_lowered(s: Seq<MetaEntryView>) -> bool {
    forall|i: int| 0 <= i < s.len() ==> exists|q: Seq<char>| #[trigger] lowercase(q) == #[trigger] s[i].0
}

/// The values of the last pair of `src` whose key lower-cases to `k`, if
/// any: what setting the pairs of `src` in turn leaves under `k`.
pub open spec fn last_value_for(src: Seq<MetaEntryView>, k: Seq<char>) -> Option<Seq<Seq<char>>>
    decreases src.len(),
{
    if src.len() == 0 {
        None
    } else if lowercase(src.last().0) == k {
        Some(src.last().1)
    } else {
        last_value_for(src.drop_last(), k)
    }
}

/// Whether no two pairs of `src` have keys with the same lower-case form.
pub open spec fn lowered_keys_distinct(src: Seq<MetaEntryView>) -> bool {
    forall|i: int, j: int| 0 <= i < j < src.len() ==> lowercase(src[i].0) != lowercase(src[j].0)
}

/// Setting a key leaves the values of every other key as they were.
pub proof fn lemma_meta_get_other_after_insert(s: Seq<MetaEntryView>, k: Seq<char>, v: Seq<Seq<char>>, other: Seq<char>)
    requires
        other != k,
    ensures
        meta_lookup(meta_insert(s, k, v), other) == meta_lookup(s, other),
{
    let ns = meta_insert(s, k, v);
    match find_key(s, k) {
        Some(_) => {
            let i = choose|i: int| is_first_key(s, k, i);
            assert(is_first_key(s, k, i));
            assert(ns == s.update(i, (k, v)));
            match find_key(s, other) {
                Some(_) => {
                    let m = choose|m: int| is_first_key(s, other, m);
                    assert(is_first_key(s, other, m));
                    assert(m != i);
                    assert(is_first_key(ns, other, m));
                    lemma_first_key_unique(ns, other, m);
                    lemma_first_key_unique(s, other, m);
                }
                None => {
                    assert forall|j: int| 0 <= j < ns.len() implies ns[j].0 != other by {
                        if j != i && ns[j].0 == other {
                            lemma_key_found(s, other, j);
                        }
                    }
                    lemma_no_key(ns, other);
                }
            }
        }
        None => {
            assert(ns == s.push((k, v)));
            match find_key(s, other) {
                Some(_) => {
                    let m = choose|m: int| is_first_key(s, other, m);
                    assert(is_first_key(s, other, m));
                    assert(is_first_key(ns, other, m));
                    lemma_first_key_unique(ns, other, m);
                    lemma_first_key_unique(s, other, m);
                }
                None => {
                    assert forall|j: int| 0 <= j < ns.len() implies ns[j].0 != other by {
                        if j < s.len() && ns[j].0 == other {
                            lemma_key_found(s, other, j);
                        }
                    }
                    lemma_no_key(ns, other);
                }
            }
        }
    }
}

/// After the pairs of `src` are set on top of `s`, a key reads back the
/// values of the last pair whose key lower-cases to it, or, when there is
/// none, what it read before.
pub proof fn lemma_meta_insert_all_lookup(s: Seq<MetaEntryView>, src: Seq<MetaEntryView>, k: Seq<char>)
    ensures
        meta_lookup(meta_insert_all(s, src), k) == match last_value_for(src, k) {
            Some(v) => Some(v),
            None => meta_lookup(s, k),
        },
    decreases src.len(),
{
    if src.len() > 0 {
        let prev = meta_insert_all(s, src.drop_last());
        lemma_meta_insert_all_lookup(s, src.drop_last(), k);
        let lk = lowercase(src.last().0);
        if lk == k {
            lemma_meta_get_after_insert(prev, lk, src.last().1);
        } else {
            lemma_meta_get_other_after_insert(prev, lk, src.last().1, k);
        }
    }
}

/// Metadata made from pairs reads back, under any key, the values of the
/// last pair whose key has the same lower-case form, and nothing when there
/// is no such pair.
pub proof fn lemma_meta_new_reads_back(src: Seq<MetaEntryView>, key: Seq<char>)
    ensures
        meta_lookup(meta_insert_all(Seq::empty(), src), lowercase(key)) == last_value_for(src, lowercase(key)),
{
    lemma_meta_insert_all_lookup(Seq::empty(), src, lowercase(key));
    lemma_no_key(Seq::<MetaEntryView>::empty(), lowercase(key));
}

proof fn lemma_insert_keys(s: Seq<MetaEntryView>, k: Seq<char>, v: Seq<Seq<char>>)
    requires
        keys_distinct(s),
    ensures
        keys_distinct(meta_insert(s, k, v)),
        meta_insert(s, k, v).len() >= s.len(),
        forall|i: int| 0 <= i < s.len() ==> meta_insert(s, k, v)[i].0 == s[i].0,
        forall|i: int| s.len() <= i < meta_insert(s, k, v).len() ==> meta_insert(s, k, v)[i].0 == k,
        find_key(s, k) is None ==> meta_insert(s, k, v).len() == s.len() + 1,
{
    let ns = meta_insert(s, k, v);
    match find_key(s, k) {
        Some(_) => {
            let i = choose|i: int| is_first_key(s, k, i);
            assert(is_first_key(s, k, i));
            assert(ns == s.update(i, (k, v)));
        }
        None => {
            assert(ns == s.push((k, v)));
            assert forall|j: int| 0 <= j < s.len() implies s[j].0 != k by {
                if s[j].0 == k {
                    lemma_key_found(s, k, j);
                }
            }
        }
    }
}

/// Setting pairs on top of entries whose keys are distinct and lower-cased
/// keeps both: no key occurs twice, and each is a lower-case form.
pub proof fn lemma_meta_insert_all_keys(s: Seq<MetaEntryView>, src: Seq<MetaEntryView>)
    requires
        keys_distinct(s),
        keys_lowered(s),
    ensures
        keys_distinct(meta_insert_all(s, src)),
        keys_lowered(meta_insert_all(s, src)),
    decreases src.len(),
{
    if src.len() > 0 {
        let prev = meta_insert_all(s, src.drop_last());
        lemma_meta_insert_all_keys(s, src.drop_last());
        let lk = lowercase(src.last().0);
        lemma_insert_keys(prev, lk, src.last().1);
        let ns = meta_insert(prev, lk, src.last().1);
        assert forall|i: int| 0 <= i < ns.len() implies exists|q: Seq<char>| #[trigger] lowercase(q) == #[trigger] ns[i].0 by {
            if i < prev.len() {
                assert(ns[i].0 == prev[i].0);
            } else {
                assert(lowercase(src.last().0) == ns[i].0);
            }
        }
    }
}

proof fn lemma_last_value_none(src: Seq<MetaEntryView>, k: Seq<char>)
    requires
        forall|j: int| 0 <= j < src.len() ==> lowercase(src[j].0) != k,
    ensures
        last_value_for(src, k) is None,
    decreases src.len(),
{
    if src.len() > 0 {
        assert(lowercase(src[src.len() - 1].0) != k);
        lemma_last_value_none(src.drop_last(), k);
    }
}

/// Metadata made from pairs whose keys differ in lower case has one entry
/// per pair.
pub proof fn lemma_meta_new_len(src: Seq<MetaEntryView>)
    requires
        lowered_keys_distinct(src),
    ensures
        meta_insert_all(Seq::empty(), src).len() == src.len(),
    decreases src.len(),
{
    if src.len() > 0 {
        let init = src.drop_last();
        assert(lowered_keys_distinct(init));
        lemma_meta_new_len(init);
        let prev = meta_insert_all(Seq::empty(), init);
        let lk = lowercase(src.last().0);
        assert forall|j: int| 0 <= j < init.len() implies lowercase(init[j].0) != lk by {
            assert(init[j] == src[j]);
        }
        lemma_last_value_none(init, lk);
        lemma_meta_insert_all_lookup(Seq::empty(), init, lk);
        lemma_no_key(Seq::<MetaEntryView>::empty(), lk);
        assert(meta_lookup(prev, lk) is None);
        lemma_meta_insert_all_keys(Seq::empty(), init);
        lemma_insert_keys(prev, lk, src.last().1);
    }
}

/// In entries without repeated keys, each entry's key reads back its
/// values, and a key reads back something only when some entry has it.
pub proof fn lemma_meta_entries_read_back(s: Seq<MetaEntryView>, k: Seq<char>)
    requires
        keys_distinct(s),
    ensures
        forall|i: int| 0 <= i < s.len() ==> meta_lookup(s, #[trigger] s[i].0) == Some(s[i].1),
        meta_lookup(s, k) is Some ==> exists|i: int| 0 <= i < s.len() && s[i].0 == k,
{
    assert forall|i: int| 0 <= i < s.len() implies meta_lookup(s, #[trigger] s[i].0) == Some(s[i].1) by {
        assert(is_first_key(s, s[i].0, i));
        lemma_first_key_unique(s, s[i].0, i);
    }
    if meta_lookup(s, k) is Some {
        let i = choose|i: int| is_first_key(s, k, i);
        assert(is_first_key(s, k, i));
    }
}

proof fn lemma_last_value_at(src: Seq<MetaEntryView>, j: int)
    requires
        lowered_keys_distinct(src),
        0 <= j < src.len(),
    ensures
        last_value_for(src, lowercase(src[j].0)) == Some(src[j].1),
    decreases src.len(),
{
    if j < src.len() - 1 {
        let init = src.drop_last();
        assert(lowered_keys_distinct(init));
        assert(init[j] == src[j]);
        assert(lowercase(src[j].0) != lowercase(src[src.len() - 1].0));
        lemma_last_value_at(init, j);
    }
}

/// Metadata made from pairs whose keys differ in lower case: the key of each
/// pair, looked up in any case, reads back that pair's values; a key that no
/// pair's key lower-cases to reads back nothing; there is one entry per
/// pair; and no key occurs twice, each a lower-case form.
pub proof fn lemma_meta_new_law(src: Seq<MetaEntryView>)
    requires
        lowered_keys_distinct(src),
    ensures
        forall|j: int, q: Seq<char>|
            0 <= j < src.len() && #[trigger] lowercase(q) == lowercase(#[trigger] src[j].0) ==> meta_lookup(
                meta_insert_all(Seq::empty(), src),
                lowercase(q),
            ) == Some(src[j].1),
        forall|q: Seq<char>|
            (forall|j: int| 0 <= j < src.len() ==> lowercase(#[trigger] src[j].0) != lowercase(q)) ==> meta_lookup(
                meta_insert_all(Seq::empty(), src),
                #[trigger] lowercase(q),
            ) is None,
        meta_insert_all(Seq::empty(), src).len() == src.len(),
        keys_distinct(meta_insert_all(Seq::empty(), src)),
        keys_lowered(meta_insert_all(Seq::empty(), src)),
{
    assert forall|j: int, q: Seq<char>|
        0 <= j < src.len() && #[trigger] lowercase(q) == lowercase(#[trigger] src[j].0) implies meta_lookup(
            meta_insert_all(Seq::empty(), src),
            lowercase(q),
        ) == Some(src[j].1) by {
        lemma_meta_new_reads_back(src, q);
        lemma_last_value_at(src, j);
    }
    assert forall|q: Seq<char>|
        (forall|j: int| 0 <= j < src.len() ==> lowercase(#[trigger] src[j].0) != lowercase(q)) implies meta_lookup(
            meta_insert_all(Seq::empty(), src),
            #[trigger] lowercase(q),
        ) is None by {
        lemma_meta_new_reads_back(src, q);
        lemma_last_value_none(src, lowercase(q));
    }
    lemma_meta_new_len(src);
    lemma_no_key(Seq::<MetaEntryView>::empty(), Seq::<char>::empty());
    lemma_meta_insert_all_keys(Seq::empty(), src);
}

/// Pairs whose keys differ in lower case, set on top of metadata: the key of
/// each pair, looked up in any case, reads back that pair's values; any
/// other key reads back what it read before; and setting no pairs leaves
/// the entries as they were.
pub proof fn lemma_meta_with_law(s: Seq<MetaEntryView>, src: Seq<MetaEntryView>)
    requires
        lowered_keys_distinct(src),
    ensures
        forall|j: int, q: Seq<char>|
            0 <= j < src.len() && #[trigger] lowercase(q) == lowercase(#[trigger] src[j].0) ==> meta_lookup(
                meta_insert_all(s, src),
                lowercase(q),
            ) == Some(src[j].1),
        forall|k: Seq<char>|
            (forall|j: int| 0 <= j < src.len() ==> lowercase(#[trigger] src[j].0) != k) ==> #[trigger] meta_lookup(
                meta_insert_all(s, src),
                k,
            ) == meta_lookup(s, k),
        src.len() == 0 ==> meta_insert_all(s, src) == s,
{
    assert forall|j: int, q: Seq<char>|
        0 <= j < src.len() && #[trigger] lowercase(q) == lowercase(#[trigger] src[j].0) implies meta_lookup(
            meta_insert_all(s, src),
            lowercase(q),
        ) == Some(src[j].1) by {
        lemma_meta_insert_all_lookup(s, src, lowercase(q));
        lemma_last_value_at(src, j);
    }
    assert forall|k: Seq<char>|
        (forall|j: int| 0 <= j < src.len() ==> lowercase(#[trigger] src[j].0) != k) implies #[trigger] meta_lookup(
            meta_insert_all(s, src),
            k,
        ) == meta_lookup(s, k) by {
        lemma_meta_insert_all_lookup(s, src, k);
        lemma_last_value_none(src, k);
    }
}

/// Entries as iteration lists them (no key twice, each a lower-case form):
/// each listed key reads back its values, and every text that reads back
/// something lower-cases to a listed key.
pub proof fn lemma_meta_iter_law(s: Seq<MetaEntryView>)
    requires
        keys_distinct(s),
        keys_lowered(s),
    ensures
        forall|i: int| 0 <= i < s.len() ==> meta_lookup(s, #[trigger] s[i].0) == Some(s[i].1),
        forall|q: Seq<char>|
            #[trigger] meta_lookup(s, lowercase(q)) is Some ==> exists|i: int| 0 <= i < s.len() && #[trigger] s[i].0
                == lowercase(q),
{
    lemma_meta_entries_read_back(s, Seq::<char>::empty());
    assert forall|q: Seq<char>| #[trigger] meta_lookup(s, lowercase(q)) is Some implies exists|i: int|
        0 <= i < s.len() && #[trigger] s[i].0 == lowercase(q) by {
        lemma_meta_entries_read_back(s, lowercase(q));
    }
}

/// The request payload once every before-interceptor has run: the payload,
/// when it still has the handler's parameter type (`Some`), else the error
/// telling that an interceptor changed its type.
pub fn request_after_interceptors<P>(payload: Option<P>) -> (r: Result<P, A2AError>)
    ensures
        match payload {
            Some(p) => r == Ok::<P, A2AError>(p),
            None => r matches Err(A2AError::Other(m)) && m@ == "interceptor changed request payload type"@,
        },
{
    match payload {
        Some(p) => Ok(p),
        None => Err(A2AError::Other("interceptor changed request payload type".to_owned())),
    }
}

/// The result of an intercepted call once every after-interceptor has run on
/// its response: the error left on the response, if any; else the payload
/// when there is one that still has the handler's result type
/// (`Some(Some(..))`); a payload of another type (`Some(None)`) or none at
/// all are errors of their own.
pub fn response_after_interceptors<R>(err: Option<A2AError>, payload: Option<Option<R>>) -> (r: Result<R, A2AError>)
    ensures
        match err {
            Some(e) => r == Err::<R, A2AError>(e),
            None => match payload {
                Some(Some(p)) => r == Ok::<R, A2AError>(p),
                Some(None) => r matches Err(A2AError::Other(m)) && m@
                    == "interceptor changed response payload type"@,
                None => r matches Err(A2AError::Other(m)) && m@ == "no response payload"@,
            },
        },
{
    match err {
        Some(e) => Err(e),
        None => match payload {
            Some(Some(p)) => Ok(p),
            Some(None) => Err(A2AError::Other("interceptor changed response payload type".to_owned())),
            None => Err(A2AError::Other("no response payload".to_owned())),
        },
    }
}

/// A stream event once every after-interceptor has run on it: the error left
/// on the response, if any; else the event when the payload is still one
/// (`Some`); otherwise the error telling that the event went missing.
pub fn event_after_interceptors<E>(err: Option<A2AError>, payload: Option<E>) -> (r: Result<E, A2AError>)
    ensures
        match err {
            Some(e) => r == Err::<E, A2AError>(e),
            None => match payload {
                Some(p) => r == Ok::<E, A2AError>(p),
                None => r matches Err(A2AError::Other(m)) && m@ == "missing event after interceptor"@,
            },
        },
{
    match err {
        Some(e) => Err(e),
        None => match payload {
            Some(p) => Ok(p),
            None => Err(A2AError::Other("missing event after interceptor".to_owned())),
        },
    }
}

} // verus!
