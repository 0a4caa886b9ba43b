//! In-memory task storage with monotonic versions, filtering and
//! offset-based pagination.

use vstd::prelude::*;
use crate::types::params::ListTasksResponse;
use crate::types::request::ListTasksRequest;
use crate::types::task::{Task, TaskState, TaskView};

verus! {

/// The version a store gave a task when it was last saved.
#[derive(Debug, Clone, Copy, PartialEq, Eq, Structural)]
pub struct TaskVersion(pub i64);

impl TaskVersion {
    /// The version of a task that has never been saved.
    pub fn missing() -> (r: TaskVersion)
        ensures
            r.0 == 0,
    {
        TaskVersion(0)
    }
}

/// A stored task with its version, by value.
pub type StoredView = (TaskView, i64);

/// The task ids of stored entries, in order.
pub open spec fn entry_ids(s: Seq<StoredView>) -> Seq<Seq<char>> {
    s.map_values(|e: StoredView| e.0.id)
}

/// `i` is the first position of an entry for task `id`.
pub open spec fn is_first_entry(s: Seq<StoredView>, id: Seq<char>, i: int) -> bool {
    &&& 0 <= i < s.len()
    &&& s[i].0.id == id
    &&& forall|j: int| 0 <= j < i ==> s[j].0.id != id
}

/// The first position of an entry for task `id`, if any.
pub open spec fn find_entry(s: Seq<StoredView>, id: Seq<char>) -> Option<int> {
    if exists|i: int| is_first_entry(s, id, i) {
        Some(choose|i: int| is_first_entry(s, id, i))
    } else {
        None
    }
}

/// The stored entry for task `id`, if any.
pub open spec fn lookup(s: Seq<StoredView>, id: Seq<char>) -> Option<StoredView> {
    match find_entry(s, id) {
        Some(i) => Some(s[i]),
        None => None,
    }
}

/// The entries after saving `t` with version `v`: the entry of its id is
/// replaced in place, or the entry is added at the end.
pub open spec fn saved(s: Seq<StoredView>, t: TaskView, v: i64) -> Seq<StoredView> {
    match find_entry(s, t.id) {
        Some(i) => s.update(i, (t, v)),
        None => s.push((t, v)),
    }
}

/// The entries after deleting task `id`.
pub open spec fn deleted(s: Seq<StoredView>, id: Seq<char>) -> Seq<StoredView> {
    match find_entry(s, id) {
        Some(i) => s.remove(i),
        None => s,
    }
}

/// The instant after which a list request wants tasks updated: the instant
/// its filter text names, when it has one that reads as RFC 3339.
pub open spec fn updated_after(filter: Option<Seq<char>>) -> Option<i64> {
    match filter {
        Some(f) => crate::external::rfc3339_nanos(f),
        None => None,
    }
}

/// Whether a task was last updated after `after`: its status timestamp reads
/// as an instant later than `after`.
pub open spec fn updated_later(t: TaskView, after: i64) -> bool {
    t.status.timestamp matches Some(ts) && (crate::external::rfc3339_nanos(ts) matches Some(x) && x > after)
}

/// Whether a task passes the context, state and update-time filters of a
/// list request.
pub open spec fn task_matches(
    t: TaskView,
    context_id: Option<Seq<char>>,
    status: Option<TaskState>,
    after: Option<i64>,
) -> bool {
    &&& (context_id matches Some(c) ==> t.context_id == c)
    &&& (status matches Some(st) ==> t.status.state == st)
    &&& (after matches Some(a) ==> updated_later(t, a))
}

/// The stored tasks, in order, that pass the filters.
pub open spec fn matching_tasks(
    s: Seq<StoredView>,
    context_id: Option<Seq<char>>,
    status: Option<TaskState>,
    after: Option<i64>,
) -> Seq<TaskView> {
    s.map_values(|e: StoredView| e.0).filter(|t: TaskView| task_matches(t, context_id, status, after))
}

/// Whether a list reply keeps the tasks' artifacts: unless the request
/// turns them off explicitly.
pub open spec fn keeps_artifacts(include_artifacts: Option<bool>) -> bool {
    include_artifacts != Some(false)
}

/// A task as a list reply shows it: its history limited to the most recent
/// `history_length` messages, and its artifacts only when they are kept.
pub open spec fn listed_view(t: TaskView, history_length: Option<i32>, include_artifacts: bool) -> TaskView {
    TaskView {
        history: crate::server::handler::limited_history(t.history, history_length),
        artifacts: if include_artifacts { t.artifacts } else { Seq::empty() },
        ..t
    }
}

/// The tasks of a page as a list reply shows them.
pub open spec fn listed_views(page: Seq<TaskView>, history_length: Option<i32>, include_artifacts: bool) -> Seq<TaskView> {
    page.map_values(|t: TaskView| listed_view(t, history_length, include_artifacts))
}

/// The page size a request asks for: 50 when absent, at most 100.
pub open spec fn requested_page_size(page_size: Option<i32>) -> i32 {
    let p = match page_size {
        Some(p) => p,
        None => 50i32,
    };
    if p < 100 { p } else { 100i32 }
}

/// The offset a page token stands for: its decimal value, or 0 when it is
/// absent or not a decimal `usize`.
pub open spec fn page_offset(token: Option<Seq<char>>) -> nat {
    match token {
        Some(t) => match crate::text::parse_usize_spec(t) {
            Some(v) => v,
            None => 0,
        },
        None => 0,
    }
}

/// The tasks of one page: at most `size` tasks from position `offset` on.
pub open spec fn page_of<A>(s: Seq<A>, offset: nat, size: nat) -> Seq<A> {
    let lo = if offset <= s.len() { offset as int } else { s.len() as int };
    let hi = if lo + size <= s.len() { lo + size } else { s.len() as int };
    s.subrange(lo, hi)
}

proof fn lemma_first_entry_unique(s: Seq<StoredView>, id: Seq<char>, i: int)
    requires
        is_first_entry(s, id, i),
    ensures
        find_entry(s, id) == Some(i),
{
    let k = choose|k: int| is_first_entry(s, id, k);
    assert(is_first_entry(s, id, k));
    if k < i {
        assert(s[k].0.id != id);
    }
    if i < k {
        assert(s[i].0.id != id);
    }
}

proof fn lemma_absent(s: Seq<StoredView>, id: Seq<char>)
    requires
        forall|j: int| 0 <= j < s.len() ==> s[j].0.id != id,
    ensures
        find_entry(s, id) is None,
{
    assert forall|k: int| !is_first_entry(s, id, k) by {
        if 0 <= k < s.len() {
            assert(s[k].0.id != id);
        }
    }
}


/// In-memory task store: tasks in the order they were first saved, each with
/// the version of its last save. No task id occurs twice.
#[derive(Debug)]
pub struct InMemoryTaskStore {
    tasks: Vec<(Task, TaskVersion)>,
    next_version: i64,
}

impl InMemoryTaskStore {
    #[verifier::type_invariant]
    closed spec fn wf(self) -> bool {
        entry_ids(self.entries()).no_duplicates()
    }

    /// The stored entries, in order.
    pub closed spec fn entries(self) -> Seq<StoredView> {
        self.tasks@.map_values(|e: (Task, TaskVersion)| (e.0.deep_view(), e.1.0))
    }

    /// The version the next save will give.
    pub closed spec fn next_version(self) -> i64 {
        self.next_version
    }

    /// An empty store whose first save gives version 1.
    pub fn new() -> (r: Self)
        ensures
            r.entries() == Seq::<StoredView>::empty(),
            r.next_version() == 1,
            entry_ids(r.entries()).no_duplicates(),
    {
        let r = InMemoryTaskStore { tasks: Vec::new(), next_version: 1 };
        assert(r.entries() =~= Seq::<StoredView>::empty());
        r
    }

    fn position(&self, task_id: &str) -> (r: Option<usize>)
        ensures
            match r {
                Some(i) => find_entry(self.entries(), task_id@) == Some(i as int),
                None => find_entry(self.entries(), task_id@) is None,
            },
    {
        let ghost s = self.entries();
        let mut i: usize = 0;
        while i < self.tasks.len()
            invariant
                i <= self.tasks.len(),
                s == self.entries(),
                s.len() == self.tasks.len(),
                forall|j: int| 0 <= j < i ==> s[j].0.id != task_id@,
            decreases self.tasks.len() - i,
        {
            if crate::text::str_eq(self.tasks[i].0.id.as_str(), task_id) {
                proof { lemma_first_entry_unique(s, task_id@, i as int); }
                return Some(i);
            }
            i = i + 1;
        }
        proof { lemma_absent(s, task_id@); }
        None
    }

    /// Saves a copy of `task`, replacing the entry of its id, and returns the
    /// version it was given; each save gives the next version.
    pub fn save(&mut self, task: &Task) -> (r: TaskVersion)
        ensures
            r.0 == old(self).next_version(),
            final(self).next_version() == old(self).next_version().wrapping_add(1),
            final(self).entries() == saved(old(self).entries(), task.deep_view(), r.0),
            entry_ids(old(self).entries()).no_duplicates(),
            entry_ids(final(self).entries()).no_duplicates(),
    {
        proof { use_type_invariant(&*self); }
        let ghost s = self.entries();
        let pos = self.position(task.id.as_str());
        let mut tmp = InMemoryTaskStore { tasks: Vec::new(), next_version: 1 };
        proof {
            assert(tmp.entries() =~= Seq::<StoredView>::empty());
        }
        std::mem::swap(self, &mut tmp);
        let InMemoryTaskStore { mut tasks, next_version } = tmp;
        let ver = TaskVersion(next_version);
        let copy = task.clone();
        match pos {
            Some(i) => {
                tasks.set(i, (copy, ver));
                proof {
                    let ns = tasks@.map_values(|e: (Task, TaskVersion)| (e.0.deep_view(), e.1.0));
                    assert(ns =~= s.update(i as int, (task.deep_view(), ver.0)));
                    assert(s[i as int].0.id == task.id@);
                    assert(entry_ids(ns) =~= entry_ids(s));
                }
            }
            None => {
                tasks.push((copy, ver));
                proof {
                    assert forall|j: int| 0 <= j < s.len() implies s[j].0.id != task.id@ by {
                        if s[j].0.id == task.id@ {
                            lemma_first_position(s, task.id@, j);
                        }
                    }
                    let ns = tasks@.map_values(|e: (Task, TaskVersion)| (e.0.deep_view(), e.1.0));
                    assert(ns =~= s.push((task.deep_view(), ver.0)));
                    let ks = entry_ids(s);
                    assert(entry_ids(ns) =~= ks.push(task.id@));
                    assert forall|a: int, b: int| 0 <= a < b < ks.push(task.id@).len() implies ks.push(task.id@)[a] != ks.push(task.id@)[b] by {
                        if b == ks.len() {
                            assert(s[a].0.id != task.id@);
                        }
                    }
                }
            }
        }
        *self = InMemoryTaskStore { tasks, next_version: next_version.wrapping_add(1) };
        ver
    }

    /// A copy of the stored task with the given id and its version.
    pub fn get(&self, task_id: &str) -> (r: Option<(Task, TaskVersion)>)
        ensures
            match lookup(self.entries(), task_id@) {
                Some(e) => r matches Some(p) && p.0.deep_view() == e.0 && p.1.0 == e.1,
                None => r is None,
            },
            entry_ids(self.entries()).no_duplicates(),
    {
        proof { use_type_invariant(self); }
        match self.position(task_id) {
            Some(i) => {
                let t = self.tasks[i].0.clone();
                Some((t, self.tasks[i].1))
            }
            None => None,
        }
    }

    /// Removes the task with the given id, if stored.
    pub fn delete(&mut self, task_id: &str)
        ensures
            final(self).entries() == deleted(old(self).entries(), task_id@),
            final(self).next_version() == old(self).next_version(),
            entry_ids(old(self).entries()).no_duplicates(),
            entry_ids(final(self).entries()).no_duplicates(),
    {
        proof { use_type_invariant(&*self); }
        let ghost s = self.entries();
        let pos = self.position(task_id);
        match pos {
            Some(i) => {
                proof { use_type_invariant(&*self); }
                let mut tmp = InMemoryTaskStore { tasks: Vec::new(), next_version: 1 };
                proof {
                    assert(tmp.entries() =~= Seq::<StoredView>::empty());
                }
                std::mem::swap(self, &mut tmp);
                let InMemoryTaskStore { mut tasks, next_version } = tmp;
                tasks.remove(i);
                proof {
                    let ns = tasks@.map_values(|e: (Task, TaskVersion)| (e.0.deep_view(), e.1.0));
                    assert(ns =~= s.remove(i as int));
                    assert(entry_ids(ns) =~= entry_ids(s).remove(i as int));
                    let ks = entry_ids(s);
                    assert forall|a: int, b: int| 0 <= a < b < ks.remove(i as int).len() implies ks.remove(i as int)[a] != ks.remove(i as int)[b] by {
                        let a2 = if a < i { a } else { a + 1 };
                        let b2 = if b < i { b } else { b + 1 };
                        assert(ks.remove(i as int)[a] == ks[a2]);
                        assert(ks.remove(i as int)[b] == ks[b2]);
                    }
                }
                *self = InMemoryTaskStore { tasks, next_version };
            }
            None => {
                proof { use_type_invariant(&*self); }
            }
        }
    }

    /// The tasks that pass the request's context and state filters and, when
    /// the request names an RFC 3339 instant, were updated after it; one page
    /// of them: `page_size` (50 when absent, at most 100) tasks from the
    /// offset that `page_token` holds in decimal (0 when absent or unreadable).
    /// Each task comes with its history limited to the `history_length` most
    /// recent messages, and with its artifacts unless `include_artifacts` is
    /// `Some(false)`.
    /// `total_size` counts all that pass; `next_page_token` holds the offset
    /// after this page when that is below the total.
    pub fn list(&self, req: &ListTasksRequest) -> (r: ListTasksResponse)
        ensures
            ({
                let all = matching_tasks(
                    self.entries(),
                    req.context_id.deep_view(),
                    req.status,
                    updated_after(req.status_timestamp_after.deep_view()),
                );
                let total = #[verifier::truncate] (all.len() as i32);
                let ps = requested_page_size(req.page_size);
                let off = page_offset(req.page_token.deep_view());
                let page = page_of(all, off, (ps as usize) as nat);
                let next = off + page.len();
                &&& r.tasks.deep_view() == listed_views(page, req.history_length, keeps_artifacts(req.include_artifacts))
                &&& r.total_size == Some(total)
                &&& r.page_size == Some((ps as usize) as i32)
                &&& next <= usize::MAX
                &&& ((#[verifier::truncate] ((next as usize) as i32)) < total ==> (r.next_page_token matches Some(t)
                    && t@ == crate::text::decimal(next)))
                &&& (!((#[verifier::truncate] ((next as usize) as i32)) < total) ==> r.next_page_token is None)
            }),
    {
        let ghost s = self.entries();
        let ghost ctx = req.context_id.deep_view();
        let after: Option<i64> = match &req.status_timestamp_after {
            Some(f) => crate::external::rfc3339_instant(f.as_str()),
            None => None,
        };
        assert(after == updated_after(req.status_timestamp_after.deep_view()));
        let ghost pred = |t: TaskView| task_matches(t, ctx, req.status, after);
        let ghost all_tasks = s.map_values(|e: StoredView| e.0);
        let mut result: Vec<Task> = Vec::new();
        let mut i: usize = 0;
        while i < self.tasks.len()
            invariant
                i <= self.tasks.len(),
                s == self.entries(),
                s.len() == self.tasks.len(),
                ctx == req.context_id.deep_view(),
                after == updated_after(req.status_timestamp_after.deep_view()),
                pred == (|t: TaskView| task_matches(t, ctx, req.status, after)),
                all_tasks == s.map_values(|e: StoredView| e.0),
                result.deep_view() == all_tasks.subrange(0, i as int).filter(pred),
            decreases self.tasks.len() - i,
        {
            let t = &self.tasks[i].0;
            let keep_ctx = match &req.context_id {
                Some(c) => crate::text::str_eq(t.context_id.as_str(), c.as_str()),
                None => true,
            };
            let keep_state = match req.status {
                Some(st) => t.status.state == st,
                None => true,
            };
            let keep_time = match after {
                Some(a) => match &t.status.timestamp {
                    Some(ts) => match crate::external::rfc3339_instant(ts.as_str()) {
                        Some(x) => x > a,
                        None => false,
                    },
                    None => false,
                },
                None => true,
            };
            let ghost before = result.deep_view();
            let ghost cur = all_tasks.subrange(0, i + 1);
            proof {
                assert(cur.drop_last() =~= all_tasks.subrange(0, i as int));
                assert(cur.last() == t.deep_view());
                assert(keep_ctx <==> (ctx matches Some(c) ==> t.deep_view().context_id == c));
                assert(keep_state <==> (req.status matches Some(st) ==> t.deep_view().status.state == st));
                assert(keep_time <==> (after matches Some(a) ==> updated_later(t.deep_view(), a)));
            }
            if keep_ctx && keep_state && keep_time {
                let c = t.clone();
                result.push(c);
                proof {
                    assert(pred(t.deep_view()));
                    reveal(Seq::filter);
                    assert(cur.filter(pred) == cur.drop_last().filter(pred).push(cur.last()));
                    assert(result.deep_view() =~= before.push(t.deep_view()));
                }
            } else {
                proof {
                    assert(!pred(t.deep_view()));
                    reveal(Seq::filter);
                    assert(cur.filter(pred) == cur.drop_last().filter(pred));
                }
            }
            i = i + 1;
        }
        proof {
            assert(all_tasks.subrange(0, s.len() as int) =~= all_tasks);
        }
        let ghost all = result.deep_view();
        let n = result.len();
        let total_size = #[verifier::truncate] (n as i32);
        let p = match req.page_size {
            Some(p) => p,
            None => 50,
        };
        let ps = if p < 100 { p } else { 100 };
        let page_size = #[verifier::truncate] (ps as usize);
        let offset: usize = match &req.page_token {
            Some(t) => match crate::text::parse_usize(t.as_str()) {
                Some(v) => v,
                None => 0,
            },
            None => 0,
        };
        let keep_artifacts: bool = match req.include_artifacts {
            Some(b) => b,
            None => true,
        };
        assert(keep_artifacts == keeps_artifacts(req.include_artifacts));
        let lo = if offset <= n { offset } else { n };
        let hi = if page_size <= n - lo { lo + page_size } else { n };
        let mut paged: Vec<Task> = Vec::new();
        let mut k: usize = lo;
        while k < hi
            invariant
                lo <= k <= hi <= n,
                n == result.len(),
                all == result.deep_view(),
                paged.deep_view() == listed_views(
                    all.subrange(lo as int, k as int),
                    req.history_length,
                    keep_artifacts,
                ),
            decreases hi - k,
        {
            let mut c = result[k].clone();
            crate::server::handler::apply_history_length(&mut c, req.history_length);
            if !keep_artifacts {
                c.artifacts = Vec::new();
                assert(c.artifacts.deep_view() =~= Seq::<crate::types::artifact::ArtifactView>::empty());
            }
            assert(c.deep_view() == listed_view(all[k as int], req.history_length, keep_artifacts));
            let ghost before = paged.deep_view();
            let ghost cv = c.deep_view();
            paged.push(c);
            proof {
                assert(paged.deep_view() =~= before.push(cv));
                let prev = all.subrange(lo as int, k as int);
                assert(all.subrange(lo as int, k + 1) =~= prev.push(all[k as int]));
                assert(listed_views(prev.push(all[k as int]), req.history_length, keep_artifacts)
                    =~= listed_views(prev, req.history_length, keep_artifacts).push(cv));
                assert(paged.deep_view() =~= listed_views(
                    all.subrange(lo as int, k + 1),
                    req.history_length,
                    keep_artifacts,
                ));
            }
            k = k + 1;
        }
        let next_offset = offset + (hi - lo);
        let next_page_token = if (#[verifier::truncate] (next_offset as i32)) < total_size {
            Some(crate::text::u64_to_decimal(next_offset as u64))
        } else {
            None
        };
        ListTasksResponse {
            tasks: paged,
            total_size: Some(total_size),
            page_size: Some(#[verifier::truncate] (page_size as i32)),
            next_page_token,
        }
    }
}

/// The token of the next page reads back as the offset right after the
/// page, so listing with it continues where the page ended.
pub proof fn lemma_next_page_token_reads_back(next: nat)
    requires
        next <= usize::MAX,
    ensures
        page_offset(Some(crate::text::decimal(next))) == next,
{
    crate::text::lemma_parse_decimal(next);
}

/// Saving a task and reading it back gives the task saved and the version
/// the save returned; other tasks read back as before.
pub proof fn lemma_get_after_save(s: Seq<StoredView>, t: TaskView, v: i64, other: Seq<char>)
    requires
        entry_ids(s).no_duplicates(),
    ensures
        lookup(saved(s, t, v), t.id) == Some((t, v)),
        other != t.id ==> lookup(saved(s, t, v), other) == lookup(s, other),
{
    let ns = saved(s, t, v);
    match find_entry(s, t.id) {
        Some(i) => {
            let k = choose|k: int| is_first_entry(s, t.id, k);
            assert(is_first_entry(s, t.id, k));
            assert(ns[k].0.id == t.id);
            assert(is_first_entry(ns, t.id, k));
            lemma_first_entry_unique(ns, t.id, k);
            if other != t.id {
                match find_entry(s, other) {
                    Some(j) => {
                        let m = choose|m: int| is_first_entry(s, other, m);
                        assert(is_first_entry(s, other, m));
                        assert(is_first_entry(ns, other, m));
                        lemma_first_entry_unique(ns, other, m);
                    }
                    None => {
                        assert forall|j: int| 0 <= j < ns.len() implies ns[j].0.id != other by {
                            if ns[j].0.id == other {
                                assert(j != k);
                                lemma_first_position(s, other, j);
                            }
                        }
                        lemma_absent(ns, other);
                    }
                }
            }
        }
        None => {
            assert forall|j: int| 0 <= j < s.len() implies s[j].0.id != t.id by {
                if s[j].0.id == t.id {
                    lemma_first_position(s, t.id, j);
                }
            }
            let n = s.len() as int;
            assert(ns[n].0.id == t.id);
            assert(is_first_entry(ns, t.id, n));
            lemma_first_entry_unique(ns, t.id, n);
            if other != t.id {
                match find_entry(s, other) {
                    Some(j) => {
                        let m = choose|m: int| is_first_entry(s, other, m);
                        assert(is_first_entry(s, other, m));
                        assert(is_first_entry(ns, other, m));
                        lemma_first_entry_unique(ns, other, m);
                    }
                    None => {
                        assert forall|j: int| 0 <= j < ns.len() implies ns[j].0.id != other by {
                            if j < n && ns[j].0.id == other {
                                lemma_first_position(s, other, j);
                            }
                        }
                        lemma_absent(ns, other);
                    }
                }
            }
        }
    }
}

/// If some entry has id `id`, a first one does.
proof fn lemma_first_position(s: Seq<StoredView>, id: Seq<char>, j: int)
    requires
        0 <= j < s.len(),
        s[j].0.id == id,
    ensures
        find_entry(s, id) is Some,
    decreases j,
{
    if forall|q: int| 0 <= q < j ==> s[q].0.id != id {
        assert(is_first_entry(s, id, j));
    } else {
        let q = choose|q: int| 0 <= q < j && s[q].0.id == id;
        lemma_first_position(s, id, q);
    }
}

/// After deleting a task, reading it gives nothing; other tasks read back
/// as before.
pub proof fn lemma_get_after_delete(s: Seq<StoredView>, id: Seq<char>, other: Seq<char>)
    requires
        entry_ids(s).no_duplicates(),
    ensures
        lookup(deleted(s, id), id) is None,
        other != id ==> lookup(deleted(s, id), other) == lookup(s, other),
{
    let ns = deleted(s, id);
    match find_entry(s, id) {
        Some(i) => {
            let k = choose|k: int| is_first_entry(s, id, k);
            assert(is_first_entry(s, id, k));
            assert forall|j: int| 0 <= j < ns.len() implies ns[j].0.id != id by {
                let j2 = if j < k { j } else { j + 1 };
                assert(ns[j] == s[j2]);
                assert(j2 != k);
                assert(entry_ids(s)[j2] == s[j2].0.id);
                assert(entry_ids(s)[k] == s[k].0.id);
            }
            lemma_absent(ns, id);
            if other != id {
                match find_entry(s, other) {
                    Some(_) => {
                        let m = choose|m: int| is_first_entry(s, other, m);
                        assert(is_first_entry(s, other, m));
                        assert(m != k);
                        let m2 = if m < k { m } else { m - 1 };
                        assert(ns[m2] == s[m]);
                        assert forall|q: int| 0 <= q < m2 implies ns[q].0.id != other by {
                            let q2 = if q < k { q } else { q + 1 };
                            assert(ns[q] == s[q2]);
                        }
                        assert(is_first_entry(ns, other, m2));
                        lemma_first_entry_unique(ns, other, m2);
                    }
                    None => {
                        assert forall|j: int| 0 <= j < ns.len() implies ns[j].0.id != other by {
                            let j2 = if j < k { j } else { j + 1 };
                            assert(ns[j] == s[j2]);
                            if s[j2].0.id == other {
                                lemma_first_position(s, other, j2);
                            }
                        }
                        lemma_absent(ns, other);
                    }
                }
            }
        }
        None => {}
    }
}

/// A task as a row of a SQL table: plain columns, with the status message,
/// history, artifacts and metadata held as JSON text.
#[derive(Debug)]
pub struct TaskRow {
    /// The task id.
    pub id: String,
    /// The context id.
    pub context_id: String,
    /// The state, in kebab case (for example `input-required`).
    pub status_state: String,
    /// The status message as JSON.
    pub status_message: Option<String>,
    /// The status timestamp (ISO 8601).
    pub status_timestamp: Option<String>,
    /// The history as JSON.
    pub history: Option<String>,
    /// The artifacts as JSON.
    pub artifacts: Option<String>,
    /// The metadata as JSON.
    pub metadata: Option<String>,
}

/// The kebab-case column text of a state.
pub open spec fn state_column(s: TaskState) -> Seq<char> {
    match s {
        TaskState::Submitted => "submitted"@,
        TaskState::Working => "working"@,
        TaskState::InputRequired => "input-required"@,
        TaskState::Completed => "completed"@,
        TaskState::Canceled => "canceled"@,
        TaskState::Failed => "failed"@,
        TaskState::Rejected => "rejected"@,
        TaskState::AuthRequired => "auth-required"@,
        TaskState::Unspecified => "unknown"@,
    }
}

/// The state a column text names; unknown texts name the unspecified state.
pub open spec fn state_of_column(s: Seq<char>) -> TaskState {
    if s == "submitted"@ {
        TaskState::Submitted
    } else if s == "working"@ {
        TaskState::Working
    } else if s == "input-required"@ {
        TaskState::InputRequired
    } else if s == "completed"@ {
        TaskState::Completed
    } else if s == "canceled"@ {
        TaskState::Canceled
    } else if s == "failed"@ {
        TaskState::Failed
    } else if s == "rejected"@ {
        TaskState::Rejected
    } else if s == "auth-required"@ {
        TaskState::AuthRequired
    } else {
        TaskState::Unspecified
    }
}

/// The column text of a state.
pub fn task_state_to_string(state: TaskState) -> (r: String)
    ensures
        r@ == state_column(state),
{
    let s = match state {
        TaskState::Submitted => "submitted",
        TaskState::Working => "working",
        TaskState::InputRequired => "input-required",
        TaskState::Completed => "completed",
        TaskState::Canceled => "canceled",
        TaskState::Failed => "failed",
        TaskState::Rejected => "rejected",
        TaskState::AuthRequired => "auth-required",
        TaskState::Unspecified => "unknown",
    };
    s.to_owned()
}

/// The state a column text names.
pub fn string_to_task_state(s: &str) -> (r: TaskState)
    ensures
        r == state_of_column(s@),
{
    if crate::text::str_eq(s, "submitted") {
        TaskState::Submitted
    } else if crate::text::str_eq(s, "working") {
        TaskState::Working
    } else if crate::text::str_eq(s, "input-required") {
        TaskState::InputRequired
    } else if crate::text::str_eq(s, "completed") {
        TaskState::Completed
    } else if crate::text::str_eq(s, "canceled") {
        TaskState::Canceled
    } else if crate::text::str_eq(s, "failed") {
        TaskState::Failed
    } else if crate::text::str_eq(s, "rejected") {
        TaskState::Rejected
    } else if crate::text::str_eq(s, "auth-required") {
        TaskState::AuthRequired
    } else {
        TaskState::Unspecified
    }
}

/// A state read back from its column text is the state written (the
/// unspecified state is written as `unknown`).
pub proof fn lemma_state_column_round_trip(s: TaskState)
    ensures
        state_of_column(state_column(s)) == s,
{
    reveal_strlit("submitted");
    reveal_strlit("working");
    reveal_strlit("input-required");
    reveal_strlit("completed");
    reveal_strlit("canceled");
    reveal_strlit("failed");
    reveal_strlit("rejected");
    reveal_strlit("auth-required");
    reveal_strlit("unknown");
    assert("submitted"@.len() == 9 && "working"@.len() == 7 && "input-required"@.len() == 14);
    assert("completed"@.len() == 9 && "canceled"@.len() == 8 && "failed"@.len() == 6);
    assert("rejected"@.len() == 8 && "auth-required"@.len() == 13 && "unknown"@.len() == 7);
    assert("submitted"@[0] == 's' && "completed"@[0] == 'c');
    assert("working"@[0] == 'w' && "unknown"@[0] == 'u');
    assert("canceled"@[0] == 'c' && "rejected"@[0] == 'r');
}

/// The column values of a task other than the JSON ones: id, context id,
/// state and timestamp.
pub fn task_row_columns(task: &Task) -> (r: (String, String, String, Option<String>))
    ensures
        r.0@ == task.id@,
        r.1@ == task.context_id@,
        r.2@ == state_column(task.status.state),
        r.3 == task.status.timestamp,
{
    (
        task.id.as_str().to_owned(),
        task.context_id.as_str().to_owned(),
        task_state_to_string(task.status.state),
        crate::types::clone_opt_string(&task.status.timestamp),
    )
}

/// A task from the plain columns of a row: its ids, a status of the state
/// the column names with the row's timestamp, and nothing else; the JSON
/// columns are read separately.
pub fn task_from_row_columns(row: &TaskRow) -> (r: Task)
    ensures
        r.id@ == row.id@,
        r.context_id@ == row.context_id@,
        r.status.state == state_of_column(row.status_state@),
        r.status.message is None,
        r.status.timestamp == row.status_timestamp,
        r.history@.len() == 0,
        r.artifacts@.len() == 0,
        r.metadata is None,
{
    let state = string_to_task_state(row.status_state.as_str());
    let mut task = Task::new(row.id.as_str(), row.context_id.as_str());
    proof {
        assert(task.history.deep_view().len() == task.history@.len());
        assert(task.artifacts.deep_view().len() == task.artifacts@.len());
    }
    task.status = crate::types::task::TaskStatus::new(state);
    task.status.timestamp = crate::types::clone_opt_string(&row.status_timestamp);
    task
}

} // verus!
