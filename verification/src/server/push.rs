//! Push notification configuration storage, validation, and the headers
//! that a push request carries.

use vstd::prelude::*;
use crate::error::A2AError;
use crate::text::spec_starts_with;
use crate::types::push::{AuthenticationInfo, AuthenticationInfoView, PushConfigView, PushNotificationConfig};

verus! {

/// The id under which a configuration is stored (empty when it has none).
pub open spec fn config_key(c: PushConfigView) -> Seq<char> {
    match c.id {
        Some(i) => i,
        None => Seq::empty(),
    }
}

/// A stored configuration with the task it belongs to, by value.
pub type StoredConfigView = (Seq<char>, PushConfigView);

/// Whether a stored entry belongs to task `task_id` and has id `config_id`.
pub open spec fn entry_is(e: StoredConfigView, task_id: Seq<char>, config_id: Seq<char>) -> bool {
    e.0 == task_id && config_key(e.1) == config_id
}

/// `i` is the first position of the entry of `task_id` with id `config_id`.
pub open spec fn is_first_config(s: Seq<StoredConfigView>, task_id: Seq<char>, config_id: Seq<char>, i: int) -> bool {
    &&& 0 <= i < s.len()
    &&& entry_is(s[i], task_id, config_id)
    &&& forall|j: int| 0 <= j < i ==> !entry_is(s[j], task_id, config_id)
}

/// The first position of the entry of `task_id` with id `config_id`.
pub open spec fn find_config(s: Seq<StoredConfigView>, task_id: Seq<char>, config_id: Seq<char>) -> Option<int> {
    if exists|i: int| is_first_config(s, task_id, config_id, i) {
        Some(choose|i: int| is_first_config(s, task_id, config_id, i))
    } else {
        None
    }
}

/// The entries after saving `c` for `task_id`: the entry with its id is
/// replaced in place, or it is added at the end.
pub open spec fn config_saved(s: Seq<StoredConfigView>, task_id: Seq<char>, c: PushConfigView) -> Seq<StoredConfigView> {
    match find_config(s, task_id, config_key(c)) {
        Some(i) => s.update(i, (task_id, c)),
        None => s.push((task_id, c)),
    }
}

/// Whether an entry belongs to `task_id`.
pub open spec fn of_task(task_id: Seq<char>) -> spec_fn(StoredConfigView) -> bool {
    |e: StoredConfigView| e.0 == task_id
}

/// Whether an entry belongs to another task than `task_id`.
pub open spec fn not_of_task(task_id: Seq<char>) -> spec_fn(StoredConfigView) -> bool {
    |e: StoredConfigView| e.0 != task_id
}

/// The configurations stored for `task_id`, in order.
pub open spec fn configs_of(s: Seq<StoredConfigView>, task_id: Seq<char>) -> Seq<PushConfigView> {
    s.filter(of_task(task_id)).map_values(|e: StoredConfigView| e.1)
}

/// The entries without those of `task_id` with id `config_id`.
pub open spec fn config_deleted(s: Seq<StoredConfigView>, task_id: Seq<char>, config_id: Seq<char>) -> Seq<StoredConfigView> {
    s.filter(|e: StoredConfigView| !entry_is(e, task_id, config_id))
}

/// The entries without any of `task_id`.
pub open spec fn task_configs_deleted(s: Seq<StoredConfigView>, task_id: Seq<char>) -> Seq<StoredConfigView> {
    s.filter(not_of_task(task_id))
}

/// Whether a callback URL can be stored: not empty, and `http://` or
/// `https://`.
pub open spec fn valid_push_url(url: Seq<char>) -> bool {
    url.len() > 0 && (spec_starts_with(url, "http://"@) || spec_starts_with(url, "https://"@))
}

/// `e` is the invalid-params error with the given message.
pub open spec fn is_invalid_params(e: A2AError, message: Seq<char>) -> bool {
    e matches A2AError::InvalidParams(m) && m@ == message
}

/// Checks a configuration before it is stored: its URL must not be empty
/// and must use `http` or `https`.
pub fn validate_push_config(config: &PushNotificationConfig) -> (r: Result<(), A2AError>)
    ensures
        config.url@.len() == 0 ==> (r matches Err(e) && is_invalid_params(e, "push config URL cannot be empty"@)),
        config.url@.len() > 0 && !valid_push_url(config.url@) ==> (r matches Err(e) && is_invalid_params(
            e,
            "push config URL must be http or https"@,
        )),
        valid_push_url(config.url@) ==> r is Ok,
{
    if config.url.as_str().unicode_len() == 0 {
        return Err(A2AError::InvalidParams("push config URL cannot be empty".to_owned()));
    }
    if !crate::text::starts_with(config.url.as_str(), "http://") && !crate::text::starts_with(
        config.url.as_str(),
        "https://",
    ) {
        return Err(A2AError::InvalidParams("push config URL must be http or https".to_owned()));
    }
    Ok(())
}

proof fn lemma_first_config_unique(s: Seq<StoredConfigView>, t: Seq<char>, c: Seq<char>, i: int)
    requires
        is_first_config(s, t, c, i),
    ensures
        find_config(s, t, c) == Some(i),
{
    let k = choose|k: int| is_first_config(s, t, c, k);
    assert(is_first_config(s, t, c, k));
    if k < i {
        assert(!entry_is(s[k], t, c));
    }
    if i < k {
        assert(!entry_is(s[i], t, c));
    }
}

proof fn lemma_no_config(s: Seq<StoredConfigView>, t: Seq<char>, c: Seq<char>)
    requires
        forall|j: int| 0 <= j < s.len() ==> !entry_is(s[j], t, c),
    ensures
        find_config(s, t, c) is None,
{
    assert forall|k: int| !is_first_config(s, t, c, k) by {
        if 0 <= k < s.len() {
            assert(!entry_is(s[k], t, c));
        }
    }
}

proof fn lemma_first_config_exists(s: Seq<StoredConfigView>, t: Seq<char>, c: Seq<char>, j: int)
    requires
        0 <= j < s.len(),
        entry_is(s[j], t, c),
    ensures
        find_config(s, t, c) is Some,
    decreases j,
{
    if forall|q: int| 0 <= q < j ==> !entry_is(s[q], t, c) {
        assert(is_first_config(s, t, c, j));
    } else {
        let q = choose|q: int| 0 <= q < j && entry_is(s[q], t, c);
        lemma_first_config_exists(s, t, c, q);
    }
}

/// Whether a stored configuration's id equals `config_id`.
fn key_matches(c: &PushNotificationConfig, config_id: &str) -> (r: bool)
    ensures
        r == (config_key(c.deep_view()) == config_id@),
{
    match &c.id {
        Some(i) => crate::text::str_eq(i.as_str(), config_id),
        None => {
            let r = config_id.unicode_len() == 0;
            proof {
                if r {
                    assert(config_id@ =~= Seq::<char>::empty());
                }
            }
            r
        }
    }
}

/// Push notification configurations per task, held in memory in the order
/// they were first saved.
#[derive(Debug)]
pub struct InMemoryPushNotificationConfigStore {
    configs: Vec<(String, PushNotificationConfig)>,
}

impl InMemoryPushNotificationConfigStore {
    /// The stored entries, in order.
    pub closed spec fn entries(self) -> Seq<StoredConfigView> {
        self.configs@.map_values(|e: (String, PushNotificationConfig)| (e.0@, e.1.deep_view()))
    }

    /// An empty store.
    pub fn new() -> (r: Self)
        ensures
            r.entries() == Seq::<StoredConfigView>::empty(),
    {
        let r = InMemoryPushNotificationConfigStore { configs: Vec::new() };
        assert(r.entries() =~= Seq::<StoredConfigView>::empty());
        r
    }

    fn position(&self, task_id: &str, config_id: &str) -> (r: Option<usize>)
        ensures
            match r {
                Some(i) => find_config(self.entries(), task_id@, config_id@) == Some(i as int),
                None => find_config(self.entries(), task_id@, config_id@) is None,
            },
    {
        let ghost s = self.entries();
        let mut i: usize = 0;
        while i < self.configs.len()
            invariant
                i <= self.configs.len(),
                s == self.entries(),
                s.len() == self.configs.len(),
                forall|j: int| 0 <= j < i ==> !entry_is(s[j], task_id@, config_id@),
            decreases self.configs.len() - i,
        {
            if crate::text::str_eq(self.configs[i].0.as_str(), task_id) && key_matches(&self.configs[i].1, config_id) {
                proof { lemma_first_config_unique(s, task_id@, config_id@, i as int); }
                return Some(i);
            }
            i = i + 1;
        }
        proof { lemma_no_config(s, task_id@, config_id@); }
        None
    }

    /// Stores `config` under `task_id` with the id it is given: its own id
    /// when that is present and not empty, else a fresh random UUID. A
    /// configuration whose URL is not valid is refused.
    pub fn save(&mut self, task_id: &str, config: &PushNotificationConfig) -> (r: Result<PushNotificationConfig, A2AError>)
        ensures
            config.url@.len() == 0 ==> (r matches Err(e) && is_invalid_params(e, "push config URL cannot be empty"@)),
            config.url@.len() > 0 && !valid_push_url(config.url@) ==> (r matches Err(e) && is_invalid_params(
                e,
                "push config URL must be http or https"@,
            )),
            r is Err ==> final(self).entries() == old(self).entries(),
            valid_push_url(config.url@) ==> (r matches Ok(c) && {
                &&& c.url@ == config.url@
                &&& c.token.deep_view() == config.token.deep_view()
                &&& c.authentication.deep_view() == config.authentication.deep_view()
                &&& c.id is Some
                &&& (config.id matches Some(i) && i@.len() > 0 ==> c.id.deep_view() == config.id.deep_view())
                &&& (!(config.id matches Some(i) && i@.len() > 0) ==> crate::external::is_uuid_text_of_version(c.id.unwrap()@, '4'))
                &&& final(self).entries() == config_saved(old(self).entries(), task_id@, c.deep_view())
            }),
    {
        match validate_push_config(config) {
            Err(e) => return Err(e),
            Ok(()) => {}
        }
        let mut to_save = config.clone();
        let needs_id = match &config.id {
            Some(i) => i.as_str().unicode_len() == 0,
            None => true,
        };
        if needs_id {
            to_save.id = Some(crate::external::new_uuid_v4_text());
        }
        let config_id = match &to_save.id {
            Some(i) => i.clone(),
            None => String::new(),
        };
        let ghost s = self.entries();
        let ghost c = to_save.deep_view();
        let pos = self.position(task_id, config_id.as_str());
        let copy = to_save.clone();
        match pos {
            Some(i) => {
                self.configs.set(i, (task_id.to_owned(), copy));
                proof {
                    let ns = self.entries();
                    assert(ns =~= s.update(i as int, (task_id@, c)));
                }
            }
            None => {
                self.configs.push((task_id.to_owned(), copy));
                proof {
                    assert(self.entries() =~= s.push((task_id@, c)));
                }
            }
        }
        Ok(to_save)
    }

    /// The configuration of `task_id` with id `config_id`, or an
    /// invalid-params error when there is none.
    pub fn get(&self, task_id: &str, config_id: &str) -> (r: Result<PushNotificationConfig, A2AError>)
        ensures
            match find_config(self.entries(), task_id@, config_id@) {
                Some(i) => r matches Ok(c) && c.deep_view() == self.entries()[i].1,
                None => r matches Err(e) && is_invalid_params(e, "push config not found"@),
            },
    {
        match self.position(task_id, config_id) {
            Some(i) => Ok(self.configs[i].1.clone()),
            None => Err(A2AError::InvalidParams("push config not found".to_owned())),
        }
    }

    /// The configurations stored for `task_id`, in order.
    pub fn list(&self, task_id: &str) -> (r: Vec<PushNotificationConfig>)
        ensures
            r.deep_view() == configs_of(self.entries(), task_id@),
    {
        let ghost s = self.entries();
        let ghost pred = of_task(task_id@);
        let mut out: Vec<PushNotificationConfig> = Vec::new();
        let mut i: usize = 0;
        while i < self.configs.len()
            invariant
                i <= self.configs.len(),
                s == self.entries(),
                s.len() == self.configs.len(),
                pred == of_task(task_id@),
                out.deep_view() == s.subrange(0, i as int).filter(pred).map_values(|e: StoredConfigView| e.1),
            decreases self.configs.len() - i,
        {
            let ghost before = out.deep_view();
            let ghost cur = s.subrange(0, i + 1);
            proof {
                assert(cur.drop_last() =~= s.subrange(0, i as int));
                assert(cur.last() == s[i as int]);
                reveal(Seq::filter);
            }
            if crate::text::str_eq(self.configs[i].0.as_str(), task_id) {
                out.push(self.configs[i].1.clone());
                proof {
                    let prev = cur.drop_last().filter(pred);
                    assert(cur.filter(pred) == prev.push(cur.last()));
                    assert(prev.push(cur.last()).map_values(|e: StoredConfigView| e.1) =~= prev.map_values(
                        |e: StoredConfigView| e.1,
                    ).push(cur.last().1));
                    assert(out.deep_view() =~= before.push(s[i as int].1));
                }
            } else {
                proof {
                    assert(cur.filter(pred) == cur.drop_last().filter(pred));
                }
            }
            i = i + 1;
        }
        assert(s.subrange(0, s.len() as int) =~= s);
        out
    }

    /// Drops the entries of `task_id` (only those with id `config_id` when it
/// is given), keeping the others in order.
    fn retain_entries(&mut self, task_id: &str, config_id: Option<&str>)
        ensures
            match config_id {
                Some(c) => final(self).entries() == config_deleted(old(self).entries(), task_id@, c@),
                None => final(self).entries() == task_configs_deleted(old(self).entries(), task_id@),
            },
    {
        let ghost s = self.entries();
        let ghost pred = match config_id {
            Some(c) => |e: StoredConfigView| !entry_is(e, task_id@, c@),
            None => not_of_task(task_id@),
        };
        let mut kept: Vec<(String, PushNotificationConfig)> = Vec::new();
        let mut i: usize = 0;
        while i < self.configs.len()
            invariant
                i <= self.configs.len(),
                s == self.entries(),
                s.len() == self.configs.len(),
                pred == (match config_id {
                    Some(c) => |e: StoredConfigView| !entry_is(e, task_id@, c@),
                    None => not_of_task(task_id@),
                }),
                kept@.map_values(|e: (String, PushNotificationConfig)| (e.0@, e.1.deep_view()))
                    == s.subrange(0, i as int).filter(pred),
            decreases self.configs.len() - i,
        {
            let same_task = crate::text::str_eq(self.configs[i].0.as_str(), task_id);
            let drop = match config_id {
                Some(c) => same_task && key_matches(&self.configs[i].1, c),
                None => same_task,
            };
            let ghost before = kept@.map_values(|e: (String, PushNotificationConfig)| (e.0@, e.1.deep_view()));
            let ghost cur = s.subrange(0, i + 1);
            proof {
                assert(cur.drop_last() =~= s.subrange(0, i as int));
                assert(cur.last() == s[i as int]);
                reveal(Seq::filter);
            }
            if !drop {
                let t = self.configs[i].0.clone();
                let c = self.configs[i].1.clone();
                kept.push((t, c));
                proof {
                    assert(pred(s[i as int]));
                    assert(cur.filter(pred) == cur.drop_last().filter(pred).push(cur.last()));
                    assert(kept@.map_values(|e: (String, PushNotificationConfig)| (e.0@, e.1.deep_view()))
                        =~= before.push(s[i as int]));
                }
            } else {
                proof {
                    assert(!pred(s[i as int]));
                    assert(cur.filter(pred) == cur.drop_last().filter(pred));
                }
            }
            i = i + 1;
        }
        assert(s.subrange(0, s.len() as int) =~= s);
        self.configs = kept;
    }

    /// Removes the configuration of `task_id` with id `config_id`.
    pub fn delete(&mut self, task_id: &str, config_id: &str)
        ensures
            final(self).entries() == config_deleted(old(self).entries(), task_id@, config_id@),
    {
        self.retain_entries(task_id, Some(config_id));
    }

    /// Removes every configuration of `task_id`.
    pub fn delete_all(&mut self, task_id: &str)
        ensures
            final(self).entries() == task_configs_deleted(old(self).entries(), task_id@),
    {
        self.retain_entries(task_id, None);
    }
}

/// Reading a configuration back after saving it gives what was saved.
pub proof fn lemma_config_get_after_save(s: Seq<StoredConfigView>, task_id: Seq<char>, c: PushConfigView)
    ensures
        find_config(config_saved(s, task_id, c), task_id, config_key(c)) matches Some(i)
            && config_saved(s, task_id, c)[i] == (task_id, c),
{
    let k = config_key(c);
    let ns = config_saved(s, task_id, c);
    match find_config(s, task_id, k) {
        Some(_) => {
            let i = choose|i: int| is_first_config(s, task_id, k, i);
            assert(is_first_config(s, task_id, k, i));
            assert(is_first_config(ns, task_id, k, i));
            lemma_first_config_unique(ns, task_id, k, i);
        }
        None => {
            assert forall|j: int| 0 <= j < s.len() implies !entry_is(s[j], task_id, k) by {
                if entry_is(s[j], task_id, k) {
                    lemma_first_config_exists(s, task_id, k, j);
                }
            }
            let n = s.len() as int;
            assert(is_first_config(ns, task_id, k, n));
            lemma_first_config_unique(ns, task_id, k, n);
        }
    }
}

/// The configuration that reading `(task_id, config_id)` finds, if any.
pub open spec fn config_lookup(s: Seq<StoredConfigView>, task_id: Seq<char>, config_id: Seq<char>) -> Option<PushConfigView> {
    match find_config(s, task_id, config_id) {
        Some(i) => Some(s[i].1),
        None => None,
    }
}

/// Saving a configuration leaves every other configuration as it was:
/// reading any other task and id gives what it gave before.
pub proof fn lemma_config_others_after_save(
    s: Seq<StoredConfigView>,
    task_id: Seq<char>,
    c: PushConfigView,
    other_task: Seq<char>,
    other_id: Seq<char>,
)
    requires
        !(other_task == task_id && other_id == config_key(c)),
    ensures
        config_lookup(config_saved(s, task_id, c), other_task, other_id) == config_lookup(s, other_task, other_id),
{
    let k = config_key(c);
    let ns = config_saved(s, task_id, c);
    assert(!entry_is((task_id, c), other_task, other_id));
    match find_config(s, task_id, k) {
        Some(_) => {
            let i = choose|i: int| is_first_config(s, task_id, k, i);
            assert(is_first_config(s, task_id, k, i));
            assert(ns == s.update(i, (task_id, c)));
            match find_config(s, other_task, other_id) {
                Some(_) => {
                    let m = choose|m: int| is_first_config(s, other_task, other_id, m);
                    assert(is_first_config(s, other_task, other_id, m));
                    assert(m != i);
                    assert(is_first_config(ns, other_task, other_id, m));
                    lemma_first_config_unique(ns, other_task, other_id, m);
                    lemma_first_config_unique(s, other_task, other_id, m);
                }
                None => {
                    assert forall|j: int| 0 <= j < ns.len() implies !entry_is(ns[j], other_task, other_id) by {
                        if j != i && entry_is(ns[j], other_task, other_id) {
                            lemma_first_config_exists(s, other_task, other_id, j);
                        }
                    }
                    lemma_no_config(ns, other_task, other_id);
                }
            }
        }
        None => {
            assert(ns == s.push((task_id, c)));
            match find_config(s, other_task, other_id) {
                Some(_) => {
                    let m = choose|m: int| is_first_config(s, other_task, other_id, m);
                    assert(is_first_config(s, other_task, other_id, m));
                    assert(is_first_config(ns, other_task, other_id, m));
                    lemma_first_config_unique(ns, other_task, other_id, m);
                    lemma_first_config_unique(s, other_task, other_id, m);
                }
                None => {
                    assert forall|j: int| 0 <= j < ns.len() implies !entry_is(ns[j], other_task, other_id) by {
                        if j < s.len() && entry_is(ns[j], other_task, other_id) {
                            lemma_first_config_exists(s, other_task, other_id, j);
                        }
                    }
                    lemma_no_config(ns, other_task, other_id);
                }
            }
        }
    }
}

/// After a configuration is deleted, reading it finds nothing.
pub proof fn lemma_config_get_after_delete(s: Seq<StoredConfigView>, task_id: Seq<char>, config_id: Seq<char>)
    ensures
        find_config(config_deleted(s, task_id, config_id), task_id, config_id) is None,
{
    let pred = |e: StoredConfigView| !entry_is(e, task_id, config_id);
    let ns = s.filter(pred);
    assert forall|j: int| 0 <= j < ns.len() implies !entry_is(ns[j], task_id, config_id) by {
        s.lemma_filter_pred(pred, j);
    }
    lemma_no_config(ns, task_id, config_id);
}

/// A filter that no element passes leaves nothing.
proof fn lemma_filter_none<A>(s: Seq<A>, p: spec_fn(A) -> bool)
    requires
        forall|i: int| 0 <= i < s.len() ==> !p(#[trigger] s[i]),
    ensures
        s.filter(p).len() == 0,
    decreases s.len(),
{
    reveal(Seq::filter);
    if s.len() > 0 {
        lemma_filter_none(s.drop_last(), p);
    }
}

/// After every configuration of a task is deleted, none is listed for it.
pub proof fn lemma_list_after_delete_all(s: Seq<StoredConfigView>, task_id: Seq<char>)
    ensures
        configs_of(task_configs_deleted(s, task_id), task_id).len() == 0,
{
    let p1 = not_of_task(task_id);
    let p2 = of_task(task_id);
    let ns = s.filter(p1);
    assert forall|i: int| 0 <= i < ns.len() implies !p2(#[trigger] ns[i]) by {
        s.lemma_filter_pred(p1, i);
    }
    lemma_filter_none(ns, p2);
}

/// Configuration of the HTTP push sender.
#[derive(Debug)]
pub struct HttpPushSenderConfig {
    /// Timeout of each push request.
    pub timeout: std::time::Duration,
    /// Whether a failed push is reported as an error.
    pub fail_on_error: bool,
}

impl Clone for HttpPushSenderConfig {
    fn clone(&self) -> (r: Self)
        ensures
            r.fail_on_error == self.fail_on_error,
            r.timeout == self.timeout,
    {
        HttpPushSenderConfig { timeout: self.timeout, fail_on_error: self.fail_on_error }
    }
}

impl Default for HttpPushSenderConfig {
    /// A 30 second timeout; failures are only logged.
    fn default() -> (r: Self)
        ensures
            r.timeout == crate::external::duration_of_secs(30),
            r.fail_on_error == false,
    {
        HttpPushSenderConfig {
            timeout: crate::external::duration_from_secs(30),
            fail_on_error: false,
        }
    }
}

/// The `Authorization` value prefix of a lower-cased scheme name: `bearer`
/// and `basic` have one, other schemes none.
pub open spec fn auth_prefix(lower_scheme: Seq<char>) -> Option<Seq<char>> {
    if lower_scheme == "bearer"@ {
        Some("Bearer "@)
    } else if lower_scheme == "basic"@ {
        Some("Basic "@)
    } else {
        None
    }
}

/// The headers a push request carries, besides its content type: the
/// notification token when it is set and not empty, and an `Authorization`
/// header when credentials are set, not empty, and the scheme is `bearer`
/// or `basic` in any case.
pub open spec fn push_headers_spec(config: PushConfigView) -> Seq<(Seq<char>, Seq<char>)> {
    let token_part: Seq<(Seq<char>, Seq<char>)> = match config.token {
        Some(t) => if t.len() > 0 { seq![("X-A2A-Notification-Token"@, t)] } else { seq![] },
        None => seq![],
    };
    let auth_part: Seq<(Seq<char>, Seq<char>)> = match config.authentication {
        Some(a) => match a.credentials {
            Some(c) => if c.len() > 0 {
                match auth_prefix(crate::external::lowercase(a.scheme)) {
                    Some(p) => seq![("Authorization"@, p + c)],
                    None => seq![],
                }
            } else {
                seq![]
            },
            None => seq![],
        },
        None => seq![],
    };
    token_part + auth_part
}

/// Credentials go out under the scheme the endpoint names: for a scheme that
/// lower-cases to `basic` the last header is `Authorization: Basic ` and the
/// credentials; for `bearer` it is `Authorization: Bearer ` and the
/// credentials; any other scheme sends no `Authorization` header. The
/// notification token, when set and not empty, is the only other header.
pub proof fn lemma_push_authorization(config: PushConfigView, a: AuthenticationInfoView, c: Seq<char>)
    requires
        config.authentication == Some(a),
        a.credentials == Some(c),
        c.len() > 0,
    ensures
        crate::external::lowercase(a.scheme) == "basic"@ ==> push_headers_spec(config).last() == (
            "Authorization"@,
            "Basic "@ + c,
        ),
        crate::external::lowercase(a.scheme) == "bearer"@ ==> push_headers_spec(config).last() == (
            "Authorization"@,
            "Bearer "@ + c,
        ),
        crate::external::lowercase(a.scheme) != "basic"@ && crate::external::lowercase(a.scheme) != "bearer"@
            ==> forall|i: int| 0 <= i < push_headers_spec(config).len() ==> (#[trigger] push_headers_spec(config)[i]).0
            != "Authorization"@,
        push_headers_spec(config).len() == (if config.token matches Some(t) && t.len() > 0 { 1int } else { 0int }) + (
        if crate::external::lowercase(a.scheme) == "basic"@ || crate::external::lowercase(a.scheme) == "bearer"@ {
            1int
        } else {
            0int
        }),
{
    reveal_strlit("basic");
    reveal_strlit("bearer");
    reveal_strlit("Authorization");
    reveal_strlit("X-A2A-Notification-Token");
    assert("basic"@.len() == 5 && "bearer"@.len() == 6);
    assert("Authorization"@.len() == 13 && "X-A2A-Notification-Token"@.len() == 24);
    let hs = push_headers_spec(config);
    let lk = crate::external::lowercase(a.scheme);
    if lk != "basic"@ && lk != "bearer"@ {
        assert(auth_prefix(lk) is None);
        assert forall|i: int| 0 <= i < hs.len() implies (#[trigger] hs[i]).0 != "Authorization"@ by {
            assert(hs[i].0 == "X-A2A-Notification-Token"@);
        }
    }
}

/// The `Authorization` value for credentials under a scheme, when the
/// scheme is `bearer` or `basic` in any case.
fn auth_header_value(auth: &AuthenticationInfo, credentials: &str) -> (r: Option<String>)
    ensures
        match auth_prefix(crate::external::lowercase(auth.scheme@)) {
            Some(p) => r matches Some(v) && v@ == p + credentials@,
            None => r is None,
        },
{
    let lower = crate::external::to_lowercase(auth.scheme.as_str());
    proof {
        reveal_strlit("bearer");
        reveal_strlit("basic");
    }
    if crate::text::str_eq(lower.as_str(), "bearer") {
        Some("Bearer ".to_owned().concat(credentials))
    } else if crate::text::str_eq(lower.as_str(), "basic") {
        Some("Basic ".to_owned().concat(credentials))
    } else {
        None
    }
}

/// The headers (name, value) that a push request for `config` carries
/// besides its JSON content type.
pub fn push_headers(config: &PushNotificationConfig) -> (r: Vec<(String, String)>)
    ensures
        r@.map_values(|h: (String, String)| (h.0@, h.1@)) == push_headers_spec(config.deep_view()),
{
    let mut out: Vec<(String, String)> = Vec::new();
    match &config.token {
        Some(t) => {
            if t.as_str().unicode_len() > 0 {
                out.push(("X-A2A-Notification-Token".to_owned(), t.clone()));
            }
        }
        None => {}
    }
    let ghost first = out@.map_values(|h: (String, String)| (h.0@, h.1@));
    match &config.authentication {
        Some(a) => match &a.credentials {
            Some(c) => {
                if c.as_str().unicode_len() > 0 {
                    match auth_header_value(a, c.as_str()) {
                        Some(v) => {
                            out.push(("Authorization".to_owned(), v));
                        }
                        None => {}
                    }
                }
            }
            None => {}
        },
        None => {}
    }
    assert(out@.map_values(|h: (String, String)| (h.0@, h.1@)) =~= push_headers_spec(config.deep_view()));
    out
}

/// The outcome of delivering one push notification, given the failure that
/// happened, if any (its text): no failure is success; a failure is an error
/// only when the sender is configured to fail on errors, and is otherwise
/// only reported.
pub fn push_delivery_result(config: &HttpPushSenderConfig, failure: Option<String>) -> (r: Result<(), A2AError>)
    ensures
        match failure {
            None => r is Ok,
            Some(m) => if config.fail_on_error {
                r matches Err(A2AError::ServerError(x)) && x == m
            } else {
                r is Ok
            },
        },
{
    match failure {
        None => Ok(()),
        Some(m) => {
            if config.fail_on_error {
                Err(A2AError::ServerError(m))
            } else {
                Ok(())
            }
        }
    }
}

/// The outcome of a push request by the HTTP status of its response: success
/// for a status from 200 to 299, else an internal error that names the
/// status (`status_text`, as the status is displayed) and the response body.
pub fn push_response_result(status: u16, status_text: &str, body: &str) -> (r: Result<(), A2AError>)
    ensures
        200 <= status < 300 ==> r is Ok,
        !(200 <= status < 300) ==> (r matches Err(A2AError::Internal(m))
            && m@ == "Push notification failed with status "@ + status_text@ + ": "@ + body@),
{
    if 200 <= status && status < 300 {
        Ok(())
    } else {
        let m = "Push notification failed with status ".to_owned().concat(status_text).concat(": ").concat(body);
        Err(A2AError::Internal(m))
    }
}

/// The outcome of notifying every configuration of a task: the last
/// failure, if any delivery failed, else success.
pub open spec fn last_failure_spec(s: Seq<Result<(), A2AError>>) -> Result<(), A2AError>
    decreases s.len(),
{
    if s.len() == 0 {
        Ok(())
    } else if s.last() is Err {
        s.last()
    } else {
        last_failure_spec(s.drop_last())
    }
}

/// Sums up the deliveries of one update to all configurations of a task:
/// every delivery is tried, and the last failure is what is reported.
pub fn last_failure(outcomes: Vec<Result<(), A2AError>>) -> (r: Result<(), A2AError>)
    ensures
        r == last_failure_spec(outcomes@),
{
    let mut v = outcomes;
    while v.len() > 0
        invariant
            last_failure_spec(outcomes@) == last_failure_spec(v@),
        decreases v.len(),
    {
        let ghost before = v@;
        let x = v.pop().unwrap();
        proof {
            assert(before.drop_last() =~= v@);
        }
        match x {
            Err(e) => {
                return Err(e);
            }
            Ok(()) => {}
        }
    }
    Ok(())
}

/// Authentication of a push notification endpoint: the schemes it accepts,
/// in order of preference, and the credentials to present.
#[derive(Debug)]
pub struct PushNotificationAuthenticationInfo {
    /// Accepted schemes, most preferred first.
    pub schemes: Vec<String>,
    /// The credentials, if any.
    pub credentials: Option<String>,
}

/// The credentials a scheme uses: `bearer` uses the credentials, else the
/// token; `basic` uses the credentials.
pub open spec fn scheme_credentials(lower_scheme: Seq<char>, credentials: Option<Seq<char>>, token: Option<Seq<char>>) -> Option<Seq<char>> {
    if lower_scheme == "bearer"@ {
        match credentials {
            Some(c) => Some(c),
            None => token,
        }
    } else if lower_scheme == "basic"@ {
        credentials
    } else {
        None
    }
}

/// The `Authorization` value from the first scheme (in any case) that is
/// `bearer` or `basic` and has credentials to use.
pub open spec fn scheme_authorization(schemes: Seq<Seq<char>>, credentials: Option<Seq<char>>, token: Option<Seq<char>>) -> Option<Seq<char>>
    decreases schemes.len(),
{
    if schemes.len() == 0 {
        None
    } else {
        let lower = crate::external::lowercase(schemes[0]);
        match (auth_prefix(lower), scheme_credentials(lower, credentials, token)) {
            (Some(p), Some(c)) => Some(p + c),
            _ => scheme_authorization(schemes.drop_first(), credentials, token),
        }
    }
}

/// The `Authorization` value of a notification: from the endpoint's
/// authentication when it is configured, else a bearer token when a token
/// is set, else none.
pub open spec fn notification_authorization_spec(auth: Option<(Seq<Seq<char>>, Option<Seq<char>>)>, token: Option<Seq<char>>) -> Option<Seq<char>> {
    match auth {
        Some((schemes, credentials)) => scheme_authorization(schemes, credentials, token),
        None => match token {
            Some(t) => Some("Bearer "@ + t),
            None => None,
        },
    }
}

/// The `Authorization` value a push notification carries.
pub fn notification_authorization(auth: &Option<PushNotificationAuthenticationInfo>, token: Option<&str>) -> (r: Option<String>)
    ensures
        r.deep_view() == notification_authorization_spec(
            match *auth {
                Some(a) => Some((a.schemes.deep_view(), a.credentials.deep_view())),
                None => None,
            },
            match token {
                Some(t) => Some(t@),
                None => None,
            },
        ),
{
    let ghost tok = match token {
        Some(t) => Some(t@),
        None => None::<Seq<char>>,
    };
    match auth {
        None => match token {
            Some(t) => Some("Bearer ".to_owned().concat(t)),
            None => None,
        },
        Some(a) => {
            let ghost schemes = a.schemes.deep_view();
            let ghost creds = a.credentials.deep_view();
            assert(schemes.subrange(0, schemes.len() as int) =~= schemes);
            let mut i: usize = 0;
            while i < a.schemes.len()
                invariant
                    i <= a.schemes.len(),
                    *auth == Some(*a),
                    tok == match token {
                        Some(t) => Some(t@),
                        None => None::<Seq<char>>,
                    },
                    schemes == a.schemes.deep_view(),
                    creds == a.credentials.deep_view(),
                    scheme_authorization(schemes, creds, tok) == scheme_authorization(
                        schemes.subrange(i as int, schemes.len() as int),
                        creds,
                        tok,
                    ),
                decreases a.schemes.len() - i,
            {
                let ghost rest = schemes.subrange(i as int, schemes.len() as int);
                assert(rest.drop_first() =~= schemes.subrange(i + 1, schemes.len() as int));
                assert(rest[0] == a.schemes@[i as int]@);
                let lower = crate::external::to_lowercase(a.schemes[i].as_str());
                proof {
                    reveal_strlit("bearer");
                    reveal_strlit("basic");
                    assert(crate::external::lowercase(rest[0]) == lower@);
                }
                if crate::text::str_eq(lower.as_str(), "bearer") {
                    let c: Option<&str> = match &a.credentials {
                        Some(c) => Some(c.as_str()),
                        None => token,
                    };
                    match c {
                        Some(c) => {
                            return Some("Bearer ".to_owned().concat(c));
                        }
                        None => {}
                    }
                } else if crate::text::str_eq(lower.as_str(), "basic") {
                    match &a.credentials {
                        Some(c) => {
                            return Some("Basic ".to_owned().concat(c.as_str()));
                        }
                        None => {}
                    }
                }
                i = i + 1;
            }
            assert(schemes.subrange(schemes.len() as int, schemes.len() as int).len() == 0);
            None
        }
    }
}

/// The `Authorization` value a push notification carries, checked as an HTTP
/// header value: none when there is none to send; an `InvalidConfig` error
/// when the value holds a character that a header value cannot.
pub fn checked_notification_authorization(
    auth: &Option<PushNotificationAuthenticationInfo>,
    token: Option<&str>,
) -> (r: Result<Option<String>, A2AError>)
    ensures
        match notification_authorization_spec(
            match *auth {
                Some(a) => Some((a.schemes.deep_view(), a.credentials.deep_view())),
                None => None,
            },
            match token {
                Some(t) => Some(t@),
                None => None,
            },
        ) {
            None => r matches Ok(None),
            Some(v) => if crate::external::is_header_value_text(v) {
                r matches Ok(Some(x)) && x@ == v
            } else {
                r matches Err(A2AError::InvalidConfig(m)) && m@ == "failed to parse header value"@
            },
        },
{
    match notification_authorization(auth, token) {
        None => Ok(None),
        Some(v) => match crate::external::header_value_error(v.as_str()) {
            None => Ok(Some(v)),
            Some(m) => Err(A2AError::InvalidConfig(m)),
        },
    }
}

} // verus!
