//! Bounded in-memory task registry with lifecycle operations.

use vstd::prelude::*;
use crate::error::{A2AError, JsonRpcError, is_task_not_found, is_task_not_cancelable};
use crate::types::artifact::Artifact;
use crate::types::message::Message;
use crate::types::task::{Task, TaskState, TaskStatus, TaskView, spec_is_terminal};

verus! {

/// The task ids of a list of tasks, in order.
pub open spec fn ids_of(s: Seq<TaskView>) -> Seq<Seq<char>> {
    s.map_values(|t: TaskView| t.id)
}

/// `i` is the first position of a task with id `id`.
pub open spec fn is_first_task(s: Seq<TaskView>, id: Seq<char>, i: int) -> bool {
    &&& 0 <= i < s.len()
    &&& s[i].id == id
    &&& forall|j: int| 0 <= j < i ==> s[j].id != id
}

/// The first position of a task with id `id`, if any.
pub open spec fn find_task(s: Seq<TaskView>, id: Seq<char>) -> Option<int> {
    if exists|i: int| is_first_task(s, id, i) {
        Some(choose|i: int| is_first_task(s, id, i))
    } else {
        None
    }
}

/// The most tasks a manager made with `max_tasks` holds.
pub open spec fn capacity(max_tasks: nat) -> nat {
    if max_tasks == 0 { 1 } else { max_tasks }
}

/// The tasks after storing `t`: it replaces the task with its id; a new id
/// is added at the end, first dropping the oldest task when `max_tasks` or
/// more are held.
pub open spec fn stored(s: Seq<TaskView>, t: TaskView, max_tasks: nat) -> Seq<TaskView> {
    match find_task(s, t.id) {
        Some(i) => s.update(i, t),
        None => if s.len() >= max_tasks && s.len() > 0 {
            s.drop_first().push(t)
        } else {
            s.push(t)
        },
    }
}

proof fn lemma_first_task_unique(s: Seq<TaskView>, id: Seq<char>, i: int)
    requires
        is_first_task(s, id, i),
    ensures
        find_task(s, id) == Some(i),
{
    let k = choose|k: int| is_first_task(s, id, k);
    assert(is_first_task(s, id, k));
    if k < i {
        assert(s[k].id != id);
    }
    if i < k {
        assert(s[i].id != id);
    }
}

proof fn lemma_first_task_exists(s: Seq<TaskView>, id: Seq<char>, j: int)
    requires
        0 <= j < s.len(),
        s[j].id == id,
    ensures
        find_task(s, id) is Some,
    decreases j,
{
    if forall|q: int| 0 <= q < j ==> s[q].id != id {
        assert(is_first_task(s, id, j));
    } else {
        let q = choose|q: int| 0 <= q < j && s[q].id == id;
        lemma_first_task_exists(s, id, q);
    }
}

proof fn lemma_no_task(s: Seq<TaskView>, id: Seq<char>)
    requires
        forall|j: int| 0 <= j < s.len() ==> s[j].id != id,
    ensures
        find_task(s, id) is None,
{
    assert forall|k: int| !is_first_task(s, id, k) by {
        if 0 <= k < s.len() {
            assert(s[k].id != id);
        }
    }
}

/// Position of the first task with the given id.
fn locate(tasks: &Vec<Task>, task_id: &str) -> (r: Option<usize>)
    ensures
        match r {
            Some(i) => find_task(tasks.deep_view(), task_id@) == Some(i as int),
            None => find_task(tasks.deep_view(), task_id@) is None,
        },
{
    let ghost s = tasks.deep_view();
    let mut i: usize = 0;
    while i < tasks.len()
        invariant
            i <= tasks.len(),
            s == tasks.deep_view(),
            forall|j: int| 0 <= j < i ==> s[j].id != task_id@,
        decreases tasks.len() - i,
    {
        if crate::text::str_eq(tasks[i].id.as_str(), task_id) {
            proof { lemma_first_task_unique(s, task_id@, i as int); }
            return Some(i);
        }
        i = i + 1;
    }
    proof { lemma_no_task(s, task_id@); }
    None
}

/// Manages task lifecycle and storage: at most `max_tasks` tasks (one when it
/// is 0), no task id twice, in the order they were first stored.
#[derive(Debug)]
pub struct TaskManager {
    tasks: Vec<Task>,
    max_tasks: usize,
}

impl TaskManager {
    #[verifier::type_invariant]
    closed spec fn wf(self) -> bool {
        &&& ids_of(self.tasks.deep_view()).no_duplicates()
        &&& self.tasks.len() <= capacity(self.max_tasks as nat)
    }

    /// The held tasks, in order.
    pub closed spec fn tasks(self) -> Seq<TaskView> {
        self.tasks.deep_view()
    }

    /// The capacity the manager was made with.
    pub closed spec fn max_tasks(self) -> nat {
        self.max_tasks as nat
    }

    /// An empty manager holding at most `max_tasks` tasks.
    pub fn new(max_tasks: usize) -> (r: Self)
        ensures
            r.tasks() == Seq::<TaskView>::empty(),
            r.max_tasks() == max_tasks,
    {
        let r = TaskManager { tasks: Vec::new(), max_tasks };
        assert(r.tasks() =~= Seq::<TaskView>::empty());
        r
    }

    /// Takes the tasks out, leaving an empty manager of the same capacity.
    fn take_tasks(&mut self) -> (r: Vec<Task>)
        ensures
            r.deep_view() == old(self).tasks(),
            ids_of(r.deep_view()).no_duplicates(),
            r.len() <= capacity(old(self).max_tasks()),
            final(self).tasks() == Seq::<TaskView>::empty(),
            final(self).max_tasks() == old(self).max_tasks(),
    {
        proof { use_type_invariant(&*self); }
        let mut tmp = TaskManager { tasks: Vec::new(), max_tasks: self.max_tasks };
        assert(tmp.tasks.deep_view() =~= Seq::<TaskView>::empty());
        std::mem::swap(self, &mut tmp);
        let TaskManager { tasks, max_tasks: _ } = tmp;
        proof {
            assert(self.tasks.deep_view() =~= Seq::<TaskView>::empty());
        }
        tasks
    }

    /// Puts a list of tasks back after `take_tasks`.
    fn put_back(&mut self, tasks: Vec<Task>)
        requires
            ids_of(tasks.deep_view()).no_duplicates(),
            tasks.len() <= capacity(old(self).max_tasks()),
        ensures
            final(self).tasks() == tasks.deep_view(),
            final(self).max_tasks() == old(self).max_tasks(),
    {
        let max_tasks = self.max_tasks;
        *self = TaskManager { tasks, max_tasks };
    }

    /// Stores a task, replacing the one with its id; a new task past the
    /// capacity first evicts the oldest one.
    pub fn store_task(&mut self, task: Task)
        ensures
            final(self).tasks() == stored(old(self).tasks(), task.deep_view(), old(self).max_tasks()),
            final(self).max_tasks() == old(self).max_tasks(),
            final(self).tasks().len() <= capacity(old(self).max_tasks()),
    {
        let ghost t = task.deep_view();
        let max_tasks = self.max_tasks;
        let mut tasks = self.take_tasks();
        let ghost s = tasks.deep_view();
        match locate(&tasks, task.id.as_str()) {
            Some(i) => {
                tasks.set(i, task);
                proof {
                    assert(tasks.deep_view() =~= s.update(i as int, t));
                    assert(s[i as int].id == t.id);
                    assert(ids_of(tasks.deep_view()) =~= ids_of(s));
                }
            }
            None => {
                proof {
                    assert forall|j: int| 0 <= j < s.len() implies s[j].id != t.id by {
                        if s[j].id == t.id {
                            lemma_first_task_exists(s, t.id, j);
                        }
                    }
                }
                if tasks.len() >= max_tasks && tasks.len() > 0 {
                    tasks.remove(0);
                    proof {
                        assert(tasks.deep_view() =~= s.drop_first());
                    }
                }
                let ghost mid = tasks.deep_view();
                tasks.push(task);
                proof {
                    assert(tasks.deep_view() =~= mid.push(t));
                    let ks = ids_of(mid);
                    assert(ids_of(tasks.deep_view()) =~= ks.push(t.id));
                    assert forall|a: int, b: int| 0 <= a < b < ks.push(t.id).len() implies ks.push(t.id)[a] != ks.push(t.id)[b] by {
                        if mid.len() < s.len() {
                            assert(mid[a] == s[a + 1]);
                            if b < ks.len() {
                                assert(mid[b] == s[b + 1]);
                                assert(ids_of(s)[a + 1] == s[a + 1].id);
                                assert(ids_of(s)[b + 1] == s[b + 1].id);
                            }
                        } else {
                            assert(mid[a] == s[a]);
                            if b < ks.len() {
                                assert(ids_of(s)[a] == s[a].id);
                                assert(ids_of(s)[b] == s[b].id);
                            }
                        }
                    }
                }
            }
        }
        self.put_back(tasks);
    }

    /// Creates and stores a task with random ids and a submitted status.
    pub fn create_task(&mut self) -> (r: Task)
        ensures
            r.status.state == TaskState::Submitted,
            crate::external::is_uuid_text_of_version(r.id@, '7'),
            crate::external::is_uuid_text_of_version(r.context_id@, '7'),
            final(self).tasks() == stored(old(self).tasks(), r.deep_view(), old(self).max_tasks()),
            final(self).max_tasks() == old(self).max_tasks(),
    {
        let task = Task::create();
        self.store_task(task.clone());
        task
    }

    /// Creates and stores a submitted task with the given ids.
    pub fn create_task_with_ids(&mut self, task_id: &str, context_id: &str) -> (r: Task)
        ensures
            r.id@ == task_id@,
            r.context_id@ == context_id@,
            r.status.state == TaskState::Submitted,
            final(self).tasks() == stored(old(self).tasks(), r.deep_view(), old(self).max_tasks()),
            final(self).max_tasks() == old(self).max_tasks(),
    {
        let task = Task::new(task_id, context_id);
        self.store_task(task.clone());
        task
    }

    /// A copy of the task with the given id.
    pub fn get_task(&self, task_id: &str) -> (r: Option<Task>)
        ensures
            match find_task(self.tasks(), task_id@) {
                Some(i) => r matches Some(t) && t.deep_view() == self.tasks()[i],
                None => r is None,
            },
    {
        match locate(&self.tasks, task_id) {
            Some(i) => Some(self.tasks[i].clone()),
            None => None,
        }
    }

    /// A copy of the task with the given id, or a task-not-found error.
    pub fn require_task(&self, task_id: &str) -> (r: Result<Task, A2AError>)
        ensures
            match find_task(self.tasks(), task_id@) {
                Some(i) => r matches Ok(t) && t.deep_view() == self.tasks()[i],
                None => r matches Err(e) && is_task_not_found(e, task_id@),
            },
    {
        match self.get_task(task_id) {
            Some(t) => Ok(t),
            None => Err(A2AError::JsonRpc(JsonRpcError::task_not_found(task_id))),
        }
    }

    /// Puts `new_task`, which keeps the id, at position `i` and returns a copy of it.
    fn modify_at(&mut self, i: usize, new_task: Task) -> (r: Task)
        requires
            i < old(self).tasks().len(),
            new_task.id@ == old(self).tasks()[i as int].id,
        ensures
            final(self).tasks() == old(self).tasks().update(i as int, new_task.deep_view()),
            final(self).max_tasks() == old(self).max_tasks(),
            r.deep_view() == new_task.deep_view(),
    {
        let mut tasks = self.take_tasks();
        let ghost s = tasks.deep_view();
        let copy = new_task.clone();
        tasks.set(i, new_task);
        proof {
            assert(tasks.deep_view() =~= s.update(i as int, copy.deep_view()));
            assert(ids_of(tasks.deep_view()) =~= ids_of(s));
        }
        self.put_back(tasks);
        copy
    }

    /// Sets the status of the task with the given id.
    pub fn update_status(&mut self, task_id: &str, status: TaskStatus) -> (r: Result<Task, A2AError>)
        ensures
            match find_task(old(self).tasks(), task_id@) {
                Some(i) => {
                    let t = TaskView { status: status.deep_view(), ..old(self).tasks()[i] };
                    &&& r matches Ok(x) && x.deep_view() == t
                    &&& final(self).tasks() == old(self).tasks().update(i, t)
                },
                None => r matches Err(e) && is_task_not_found(e, task_id@) && final(self).tasks()
                    == old(self).tasks(),
            },
            final(self).max_tasks() == old(self).max_tasks(),
    {
        match locate(&self.tasks, task_id) {
            Some(i) => {
                let mut t = self.tasks[i].clone();
                t.status = status;
                Ok(self.modify_at(i, t))
            }
            None => Err(A2AError::JsonRpc(JsonRpcError::task_not_found(task_id))),
        }
    }

    /// Adds a message to the history of the task with the given id.
    pub fn add_message(&mut self, task_id: &str, message: Message) -> (r: Result<Task, A2AError>)
        ensures
            match find_task(old(self).tasks(), task_id@) {
                Some(i) => {
                    let o = old(self).tasks()[i];
                    let t = TaskView { history: o.history.push(message.deep_view()), ..o };
                    &&& r matches Ok(x) && x.deep_view() == t
                    &&& final(self).tasks() == old(self).tasks().update(i, t)
                },
                None => r matches Err(e) && is_task_not_found(e, task_id@) && final(self).tasks()
                    == old(self).tasks(),
            },
            final(self).max_tasks() == old(self).max_tasks(),
    {
        match locate(&self.tasks, task_id) {
            Some(i) => {
                let mut t = self.tasks[i].clone();
                t.add_message(message);
                Ok(self.modify_at(i, t))
            }
            None => Err(A2AError::JsonRpc(JsonRpcError::task_not_found(task_id))),
        }
    }

    /// Adds an artifact to the task with the given id.
    pub fn add_artifact(&mut self, task_id: &str, artifact: Artifact) -> (r: Result<Task, A2AError>)
        ensures
            match find_task(old(self).tasks(), task_id@) {
                Some(i) => {
                    let o = old(self).tasks()[i];
                    let t = TaskView { artifacts: o.artifacts.push(artifact.deep_view()), ..o };
                    &&& r matches Ok(x) && x.deep_view() == t
                    &&& final(self).tasks() == old(self).tasks().update(i, t)
                },
                None => r matches Err(e) && is_task_not_found(e, task_id@) && final(self).tasks()
                    == old(self).tasks(),
            },
            final(self).max_tasks() == old(self).max_tasks(),
    {
        match locate(&self.tasks, task_id) {
            Some(i) => {
                let mut t = self.tasks[i].clone();
                t.add_artifact(artifact);
                Ok(self.modify_at(i, t))
            }
            None => Err(A2AError::JsonRpc(JsonRpcError::task_not_found(task_id))),
        }
    }

    /// Cancels the task with the given id: an error when it does not exist or
    /// is in a terminal state, else its status becomes canceled.
    pub fn cancel_task(&mut self, task_id: &str) -> (r: Result<Task, A2AError>)
        ensures
            match find_task(old(self).tasks(), task_id@) {
                Some(i) => {
                    let o = old(self).tasks()[i];
                    if spec_is_terminal(o.status.state) {
                        &&& r matches Err(e) && is_task_not_cancelable(e, task_id@)
                        &&& final(self).tasks() == old(self).tasks()
                    } else {
                        &&& r matches Ok(x) && x.status.state == TaskState::Canceled
                            && x.status.message is None
                            && x.deep_view() == (TaskView { status: x.status.deep_view(), ..o })
                            && final(self).tasks() == old(self).tasks().update(i, x.deep_view())
                    }
                },
                None => r matches Err(e) && is_task_not_found(e, task_id@) && final(self).tasks()
                    == old(self).tasks(),
            },
            final(self).max_tasks() == old(self).max_tasks(),
    {
        match locate(&self.tasks, task_id) {
            Some(i) => {
                if self.tasks[i].status.state.is_terminal() {
                    return Err(A2AError::JsonRpc(JsonRpcError::task_not_cancelable(task_id)));
                }
                let mut t = self.tasks[i].clone();
                t.status = TaskStatus::new(TaskState::Canceled);
                Ok(self.modify_at(i, t))
            }
            None => Err(A2AError::JsonRpc(JsonRpcError::task_not_found(task_id))),
        }
    }

    /// Removes the task with the given id and returns it.
    pub fn remove_task(&mut self, task_id: &str) -> (r: Option<Task>)
        ensures
            match find_task(old(self).tasks(), task_id@) {
                Some(i) => r matches Some(t) && t.deep_view() == old(self).tasks()[i]
                    && final(self).tasks() == old(self).tasks().remove(i),
                None => r is None && final(self).tasks() == old(self).tasks(),
            },
            final(self).max_tasks() == old(self).max_tasks(),
    {
        match locate(&self.tasks, task_id) {
            Some(i) => {
                let mut tasks = self.take_tasks();
                let ghost s = tasks.deep_view();
                let t = tasks.remove(i);
                proof {
                    assert(tasks.deep_view() =~= s.remove(i as int));
                    let ks = ids_of(s);
                    assert(ids_of(tasks.deep_view()) =~= ks.remove(i as int));
                    assert forall|a: int, b: int| 0 <= a < b < ks.remove(i as int).len() implies ks.remove(i as int)[a] != ks.remove(i as int)[b] by {
                        let a2 = if a < i { a } else { a + 1 };
                        let b2 = if b < i { b } else { b + 1 };
                        assert(ks.remove(i as int)[a] == ks[a2]);
                        assert(ks.remove(i as int)[b] == ks[b2]);
                    }
                }
                self.put_back(tasks);
                Some(t)
            }
            None => None,
        }
    }

    /// The ids of the held tasks, in order.
    pub fn list_task_ids(&self) -> (r: Vec<String>)
        ensures
            r.deep_view() == ids_of(self.tasks()),
    {
        let mut out: Vec<String> = Vec::new();
        let mut i: usize = 0;
        while i < self.tasks.len()
            invariant
                i <= self.tasks.len(),
                out.deep_view() == ids_of(self.tasks.deep_view()).subrange(0, i as int),
            decreases self.tasks.len() - i,
        {
            let ghost before = out.deep_view();
            out.push(self.tasks[i].id.0.clone());
            proof {
                assert(out.deep_view() =~= before.push(self.tasks.deep_view()[i as int].id));
                assert(ids_of(self.tasks.deep_view()).subrange(0, i + 1) =~= ids_of(self.tasks.deep_view()).subrange(0, i as int).push(self.tasks.deep_view()[i as int].id));
            }
            i = i + 1;
        }
        assert(ids_of(self.tasks.deep_view()).subrange(0, self.tasks.len() as int) =~= ids_of(self.tasks.deep_view()));
        out
    }

    /// The number of held tasks.
    pub fn task_count(&self) -> (r: usize)
        ensures
            r == self.tasks().len(),
    {
        self.tasks.len()
    }

    /// Removes every task.
    pub fn clear(&mut self)
        ensures
            final(self).tasks() == Seq::<TaskView>::empty(),
            final(self).max_tasks() == old(self).max_tasks(),
    {
        let _ = self.take_tasks();
    }
}

impl Default for TaskManager {
    fn default() -> (r: Self)
        ensures
            r.tasks() == Seq::<TaskView>::empty(),
            r.max_tasks() == 1000,
    {
        Self::new(1000)
    }
}

/// A manager never holds more than its capacity, and storing a task leaves
/// no two held tasks with the same id.
pub proof fn lemma_store_bounded(s: Seq<TaskView>, t: TaskView, max_tasks: nat)
    requires
        ids_of(s).no_duplicates(),
        s.len() <= capacity(max_tasks),
    ensures
        stored(s, t, max_tasks).len() <= capacity(max_tasks),
        find_task(stored(s, t, max_tasks), t.id) is Some,
        stored(s, t, max_tasks)[find_task(stored(s, t, max_tasks), t.id).unwrap()] == t,
{
    let ns = stored(s, t, max_tasks);
    match find_task(s, t.id) {
        Some(i) => {
            let k = choose|k: int| is_first_task(s, t.id, k);
            assert(is_first_task(s, t.id, k));
            assert(is_first_task(ns, t.id, k));
            lemma_first_task_unique(ns, t.id, k);
        }
        None => {
            assert forall|j: int| 0 <= j < s.len() implies s[j].id != t.id by {
                if s[j].id == t.id {
                    lemma_first_task_exists(s, t.id, j);
                }
            }
            let n = ns.len() - 1;
            assert(ns[n] == t);
            assert forall|j: int| 0 <= j < n implies ns[j].id != t.id by {
                if s.len() >= max_tasks && s.len() > 0 {
                    assert(ns[j] == s[j + 1]);
                } else {
                    assert(ns[j] == s[j]);
                }
            }
            assert(is_first_task(ns, t.id, n));
            lemma_first_task_unique(ns, t.id, n);
        }
    }
}

} // verus!
