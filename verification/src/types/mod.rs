//! Protocol data types: tasks, messages, parts, artifacts, agent cards,
//! security schemes, push notification configs and request/response types.


pub mod id;
pub mod part;
pub mod message;
pub mod artifact;
pub mod task;
pub mod event;
pub mod push;
pub mod request;
pub mod params;
pub mod response;
pub mod jsonrpc;
pub mod agent;
pub mod security;
pub mod oauth;
pub mod extensions;

use vstd::prelude::*;

verus! {

broadcast use {vstd::set::axiom_mk_map_domain, vstd::set::axiom_mk_map_index};

/// Extension metadata: a map from string keys to JSON values.
///
/// Held as a list of entries in which no key occurs twice; the map it stands
/// for is `as_map`.
#[derive(Debug)]
pub struct Metadata {
    entries: Vec<(String, serde_json::Value)>,
}

/// The key views of a list of entries.
pub open spec fn entry_keys(e: Seq<(String, serde_json::Value)>) -> Seq<Seq<char>> {
    e.map_values(|p: (String, serde_json::Value)| p.0@)
}

impl Metadata {
    /// No key occurs twice.
    #[verifier::type_invariant]
    pub closed spec fn wf(self) -> bool {
        entry_keys(self.entries@).no_duplicates()
    }

    /// The entries, each key taken by its characters.
    pub closed spec fn entry_views(self) -> Seq<(Seq<char>, serde_json::Value)> {
        self.entries@.map_values(|p: (String, serde_json::Value)| (p.0@, p.1))
    }

    /// Whether `k` is the key of the entry at `i`.
    pub open spec fn key_at(self, i: int, k: Seq<char>) -> bool {
        0 <= i < self.entry_views().len() && self.entry_views()[i].0 == k
    }

    /// An entry position holding key `k`.
    pub open spec fn index_of(self, k: Seq<char>) -> int {
        choose|i: int| self.key_at(i, k)
    }

    /// The map the entries stand for.
    pub open spec fn as_map(self) -> Map<Seq<char>, serde_json::Value> {
        Map::new(
            |k: Seq<char>| exists|i: int| self.key_at(i, k),
            |k: Seq<char>| self.entry_views()[self.index_of(k)].1,
        )
    }

    /// Creates an empty map.
    pub fn new() -> (r: Self)
        ensures
            r.entry_views() == Seq::<(Seq<char>, serde_json::Value)>::empty(),
            r.as_map() == Map::<Seq<char>, serde_json::Value>::empty(),
    {
        let r = Metadata { entries: Vec::new() };
        assert(r.as_map() =~= Map::<Seq<char>, serde_json::Value>::empty());
        r
    }

    /// Number of keys.
    pub fn len(&self) -> (r: usize)
        ensures
            r == self.entry_views().len(),
    {
        self.entries.len()
    }

    /// Whether there are no keys.
    pub fn is_empty(&self) -> (r: bool)
        ensures
            r == (self.entry_views().len() == 0),
    {
        self.entries.len() == 0
    }

    /// Position of `key` among the entries, if present.
    fn position(&self, key: &str) -> (r: Option<usize>)
        ensures
            match r {
                Some(i) => i < self.entry_views().len() && self.entry_views()[i as int].0 == key@,
                None => forall|i: int| 0 <= i < self.entry_views().len() ==> self.entry_views()[i].0 != key@,
            },
    {
        let mut i: usize = 0;
        while i < self.entries.len()
            invariant
                i <= self.entries.len(),
                forall|j: int| 0 <= j < i ==> self.entry_views()[j].0 != key@,
            decreases self.entries.len() - i,
        {
            if crate::text::str_eq(self.entries[i].0.as_str(), key) {
                return Some(i);
            }
            i = i + 1;
        }
        None
    }

    /// Looks up the value stored under `key`.
    pub fn get(&self, key: &str) -> (r: Option<&serde_json::Value>)
        ensures
            match r {
                Some(v) => self.as_map().contains_key(key@) && self.as_map()[key@] == *v,
                None => !self.as_map().contains_key(key@),
            },
    {
        proof { use_type_invariant(self); }
        match self.position(key) {
            Some(i) => {
                proof { self.lemma_index_is_unique(i as int); }
                Some(&self.entries[i].1)
            }
            None => None,
        }
    }

    proof fn lemma_index_is_unique(self, i: int)
        requires
            self.wf(),
            0 <= i < self.entry_views().len(),
        ensures
            self.as_map().contains_key(self.entry_views()[i].0),
            self.as_map()[self.entry_views()[i].0] == self.entry_views()[i].1,
    {
        let k = self.entry_views()[i].0;
        assert(self.key_at(i, k));
        let j = self.index_of(k);
        assert(entry_keys(self.entries@)[i] == k);
        assert(entry_keys(self.entries@)[j] == k);
        assert(j == i);
    }

    /// Inserts `value` under `key`, returning the value it replaces.
    pub fn insert(&mut self, key: String, value: serde_json::Value) -> (r: Option<serde_json::Value>)
        ensures
            final(self).as_map() == old(self).as_map().insert(key@, value),
            match r {
                Some(v) => old(self).as_map().contains_key(key@) && old(self).as_map()[key@] == v,
                None => !old(self).as_map().contains_key(key@),
            },
    {
        proof { use_type_invariant(&*self); }
        let ghost old_self = *self;
        let pos = self.position(key.as_str());
        let mut tmp = Metadata { entries: Vec::new() };
        std::mem::swap(self, &mut tmp);
        let mut entries = tmp.entries;
        match pos {
            Some(i) => {
                proof { old_self.lemma_index_is_unique(i as int); }
                let k2 = entries[i].0.clone();
                let old_v = crate::external::clone_json_value(&entries[i].1);
                entries.set(i, (k2, value));
                assert(entry_keys(entries@) =~= entry_keys(old_self.entries@));
                *self = Metadata { entries };
                proof {
                    assert(entry_keys(self.entries@) =~= entry_keys(old_self.entries@));
                    assert forall|k: Seq<char>| #[trigger] self.as_map().contains_key(k) == old_self.as_map().insert(key@, value).contains_key(k) by {
                        if k != key@ {
                            if self.as_map().contains_key(k) {
                                let j = self.index_of(k);
                                assert(self.key_at(j, k));
                                assert(entry_keys(self.entries@)[j] == k);
                                assert(old_self.key_at(j, k));
                            }
                            if old_self.as_map().contains_key(k) {
                                let j = old_self.index_of(k);
                                assert(old_self.key_at(j, k));
                                assert(entry_keys(old_self.entries@)[j] == k);
                                assert(self.key_at(j, k));
                            }
                        } else {
                            assert(entry_keys(self.entries@)[i as int] == k);
                            assert(self.key_at(i as int, k));
                        }
                    }
                    assert forall|k: Seq<char>| #[trigger] self.as_map().contains_key(k) implies self.as_map()[k] == old_self.as_map().insert(key@, value)[k] by {
                        let j = self.index_of(k);
                        self.lemma_index_is_unique(j);
                        if k != key@ {
                            assert(old_self.entry_views()[j].0 == k);
                            old_self.lemma_index_is_unique(j);
                        } else {
                            assert(entry_keys(self.entries@)[j] == entry_keys(self.entries@)[i as int]);
                        }
                    }
                    assert(self.as_map() =~= old_self.as_map().insert(key@, value));
                }
                Some(old_v)
            }
            None => {
                entries.push((key, value));
                proof {
                    let ks = entry_keys(old_self.entries@);
                    assert(entry_keys(entries@) =~= ks.push(key@));
                    assert forall|a: int, b: int| 0 <= a < b < ks.push(key@).len() implies ks.push(key@)[a] != ks.push(key@)[b] by {
                        if b == ks.len() {
                            assert(old_self.entry_views()[a].0 == ks[a]);
                        }
                    }
                }
                *self = Metadata { entries };
                proof {
                    let ks = entry_keys(old_self.entries@);
                    assert(entry_keys(self.entries@) =~= ks.push(key@));
                    assert forall|a: int, b: int| 0 <= a < b < ks.push(key@).len() implies ks.push(key@)[a] != ks.push(key@)[b] by {
                        if b == ks.len() {
                            assert(old_self.entry_views()[a].0 == ks[a]);
                        }
                    }
                    let n = old_self.entry_views().len() as int;
                    assert(self.entry_views()[n] == (key@, value));
                    assert forall|k: Seq<char>| #[trigger] self.as_map().contains_key(k) == old_self.as_map().insert(key@, value).contains_key(k) by {
                        if self.as_map().contains_key(k) && k != key@ {
                            let j = self.index_of(k);
                            assert(self.key_at(j, k));
                            assert(j != n);
                            assert(old_self.key_at(j, k));
                        }
                        if old_self.as_map().contains_key(k) {
                            let j = old_self.index_of(k);
                            assert(old_self.key_at(j, k));
                            assert(self.key_at(j, k));
                        }
                        if k == key@ {
                            assert(self.key_at(n, k));
                        }
                    }
                    assert forall|k: Seq<char>| #[trigger] self.as_map().contains_key(k) implies self.as_map()[k] == old_self.as_map().insert(key@, value)[k] by {
                        let j = self.index_of(k);
                        assert(entry_keys(self.entries@).no_duplicates());
                        self.lemma_index_is_unique(j);
                        if k != key@ {
                            assert(j != n);
                            assert(old_self.entry_views()[j].0 == k);
                            old_self.lemma_index_is_unique(j);
                        } else {
                            self.lemma_index_is_unique(n);
                        }
                    }
                    assert(self.as_map() =~= old_self.as_map().insert(key@, value));
                }
                None
            }
        }
    }

    /// Removes `key`, returning the value it had.
    pub fn remove(&mut self, key: &str) -> (r: Option<serde_json::Value>)
        ensures
            final(self).as_map() == old(self).as_map().remove(key@),
            match r {
                Some(v) => old(self).as_map().contains_key(key@) && old(self).as_map()[key@] == v,
                None => !old(self).as_map().contains_key(key@),
            },
    {
        proof { use_type_invariant(&*self); }
        let ghost old_self = *self;
        match self.position(key) {
            None => {
                proof {
                    assert forall|k: Seq<char>| #[trigger] self.as_map().contains_key(k) implies k != key@ by {
                        let j = self.index_of(k);
                        assert(self.key_at(j, k));
                    }
                    assert(self.as_map() =~= old_self.as_map().remove(key@));
                }
                None
            }
            Some(i) => {
                proof { old_self.lemma_index_is_unique(i as int); }
                let mut tmp = Metadata { entries: Vec::new() };
                std::mem::swap(self, &mut tmp);
                let mut entries = tmp.entries;
                let (_, v) = entries.remove(i);
                proof {
                    let ks = entry_keys(old_self.entries@);
                    assert(entry_keys(entries@) =~= ks.remove(i as int));
                    assert forall|a: int, b: int| 0 <= a < b < ks.remove(i as int).len() implies ks.remove(i as int)[a] != ks.remove(i as int)[b] by {
                        let a2 = if a < i { a } else { a + 1 };
                        let b2 = if b < i { b } else { b + 1 };
                        assert(ks.remove(i as int)[a] == ks[a2]);
                        assert(ks.remove(i as int)[b] == ks[b2]);
                    }
                }
                *self = Metadata { entries };
                proof {
                    let ks = entry_keys(old_self.entries@);
                    assert(entry_keys(self.entries@) =~= ks.remove(i as int));
                    assert(self.entry_views() =~= old_self.entry_views().remove(i as int));
                    assert forall|k: Seq<char>| #[trigger] self.as_map().contains_key(k) == old_self.as_map().remove(key@).contains_key(k) by {
                        if self.as_map().contains_key(k) {
                            let j = self.index_of(k);
                            assert(self.key_at(j, k));
                            let j2 = if j < i { j } else { j + 1 };
                            assert(old_self.entry_views()[j2] == self.entry_views()[j]);
                            assert(old_self.key_at(j2, k));
                            assert(entry_keys(old_self.entries@)[j2] == k);
                            assert(entry_keys(old_self.entries@)[i as int] == key@);
                            assert(j2 != i);
                        }
                        if old_self.as_map().contains_key(k) && k != key@ {
                            let j = old_self.index_of(k);
                            assert(old_self.key_at(j, k));
                            assert(j != i);
                            let j2 = if j < i { j } else { j - 1 };
                            assert(self.entry_views()[j2] == old_self.entry_views()[j]);
                            assert(self.key_at(j2, k));
                        }
                    }
                    assert forall|k: Seq<char>| #[trigger] self.as_map().contains_key(k) implies self.as_map()[k] == old_self.as_map().remove(key@)[k] by {
                        let j = self.index_of(k);
                        self.lemma_index_is_unique(j);
                        let j2 = if j < i { j } else { j + 1 };
                        assert(old_self.entry_views()[j2] == self.entry_views()[j]);
                        old_self.lemma_index_is_unique(j2);
                    }
                    assert(self.as_map() =~= old_self.as_map().remove(key@));
                }
                Some(v)
            }
        }
    }

    /// The entries in their stored order.
    pub fn entries(&self) -> (r: &Vec<(String, serde_json::Value)>)
        ensures
            r@.map_values(|p: (String, serde_json::Value)| (p.0@, p.1)) == self.entry_views(),
    {
        &self.entries
    }
}

impl DeepView for Metadata {
    type V = Seq<(Seq<char>, serde_json::Value)>;

    open spec fn deep_view(&self) -> Self::V {
        self.entry_views()
    }
}

impl Clone for Metadata {
    fn clone(&self) -> (r: Self)
        ensures
            r.deep_view() == self.deep_view(),
    {
        proof { use_type_invariant(self); }
        let mut out: Vec<(String, serde_json::Value)> = Vec::new();
        let mut i: usize = 0;
        while i < self.entries.len()
            invariant
                i <= self.entries.len(),
                out@.len() == i,
                forall|j: int| 0 <= j < i ==> #[trigger] out@[j].0@ == self.entries@[j].0@ && out@[j].1 == self.entries@[j].1,
            decreases self.entries.len() - i,
        {
            let k = self.entries[i].0.clone();
            let v = crate::external::clone_json_value(&self.entries[i].1);
            out.push((k, v));
            i = i + 1;
        }
        assert(entry_keys(out@) =~= entry_keys(self.entries@));
        let r = Metadata { entries: out };
        assert(r.entry_views() =~= self.entry_views());
        r
    }
}

/// Copies an optional metadata map.
pub fn clone_opt_metadata(m: &Option<Metadata>) -> (r: Option<Metadata>)
    ensures
        r.deep_view() == m.deep_view(),
{
    match m {
        Some(x) => Some(x.clone()),
        None => None,
    }
}

/// Copies an optional string.
pub fn clone_opt_string(s: &Option<String>) -> (r: Option<String>)
    ensures
        r.deep_view() == s.deep_view(),
        r == *s,
{
    match s {
        Some(x) => Some(x.clone()),
        None => None,
    }
}

/// Copies a list of strings.
pub fn clone_strings(v: &Vec<String>) -> (r: Vec<String>)
    ensures
        r@ == v@,
        r.deep_view() == v.deep_view(),
{
    let mut out: Vec<String> = Vec::new();
    let mut i: usize = 0;
    while i < v.len()
        invariant
            i <= v.len(),
            out@ == v@.subrange(0, i as int),
        decreases v.len() - i,
    {
        out.push(v[i].clone());
        i = i + 1;
    }
    assert(out@ =~= v@);
    out
}

/// Serde helper: `true` when a flag is `false` (such flags are not written).
pub fn is_false(v: &bool) -> (r: bool)
    ensures
        r == !*v,
{
    !*v
}

} // verus!
