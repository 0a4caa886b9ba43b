//! Pluggable generation of task and context identifiers: random UUIDs
//! with an optional prefix, sequential counters, and a pair of generators.

use vstd::prelude::*;
use crate::external::is_uuid_text_of_version;
use crate::text::decimal;

verus! {

/// Hints for generating an identifier.
#[derive(Debug, Default)]
pub struct IDGeneratorContext {
    /// An existing task id that might influence generation.
    pub task_id: Option<String>,
    /// An existing context id that might influence generation.
    pub context_id: Option<String>,
    /// A prefix to use for the generated id.
    pub prefix: Option<String>,
}

impl Clone for IDGeneratorContext {
    fn clone(&self) -> (r: Self)
        ensures
            r == *self,
    {
        IDGeneratorContext {
            task_id: crate::types::clone_opt_string(&self.task_id),
            context_id: crate::types::clone_opt_string(&self.context_id),
            prefix: crate::types::clone_opt_string(&self.prefix),
        }
    }
}

impl IDGeneratorContext {
    /// A context without hints.
    pub fn new() -> (r: Self)
        ensures
            r.task_id is None,
            r.context_id is None,
            r.prefix is None,
    {
        IDGeneratorContext { task_id: None, context_id: None, prefix: None }
    }

    /// A context with a task id hint.
    pub fn with_task_id(task_id: &str) -> (r: Self)
        ensures
            r.task_id matches Some(t) && t@ == task_id@,
            r.context_id is None,
            r.prefix is None,
    {
        IDGeneratorContext { task_id: Some(task_id.to_owned()), context_id: None, prefix: None }
    }

    /// A context with a context id hint.
    pub fn with_context_id(context_id: &str) -> (r: Self)
        ensures
            r.task_id is None,
            r.context_id matches Some(c) && c@ == context_id@,
            r.prefix is None,
    {
        IDGeneratorContext { task_id: None, context_id: Some(context_id.to_owned()), prefix: None }
    }

    /// Sets the prefix of the generated id.
    pub fn prefix(self, prefix: &str) -> (r: Self)
        ensures
            r.task_id == self.task_id,
            r.context_id == self.context_id,
            r.prefix matches Some(p) && p@ == prefix@,
    {
        IDGeneratorContext { prefix: Some(prefix.to_owned()), ..self }
    }
}

/// A generator of unique identifiers.
pub trait IDGenerator: Sized {
    /// `id` is an identifier that a call on `before` may give with
    /// `context`, leaving the generator as `after`.
    spec fn generates(before: Self, after: Self, context: IDGeneratorContext, id: Seq<char>) -> bool;

    /// Generates a new identifier.
    fn generate(&mut self, context: &IDGeneratorContext) -> (r: String)
        ensures
            Self::generates(*old(self), *final(self), *context, r@),
    ;
}

/// `id` is `prefix`, a hyphen, and a version-4 UUID in text form.
pub open spec fn is_prefixed_uuid(id: Seq<char>, prefix: Seq<char>) -> bool {
    &&& id.len() == prefix.len() + 37
    &&& id.subrange(0, prefix.len() as int) == prefix
    &&& id[prefix.len() as int] == '-'
    &&& is_uuid_text_of_version(id.subrange(prefix.len() as int + 1, id.len() as int), '4')
}

/// Random UUID identifiers, with an optional prefix.
#[derive(Debug, Default)]
pub struct UUIDGenerator {
    prefix: Option<String>,
}

impl UUIDGenerator {
    /// The prefix put before each generated id, if any.
    pub closed spec fn prefix_of(self) -> Option<Seq<char>> {
        self.prefix.deep_view()
    }

    /// A generator of bare UUIDs.
    pub fn new() -> (r: Self)
        ensures
            r.prefix_of() is None,
    {
        UUIDGenerator { prefix: None }
    }

    /// A generator of UUIDs behind `prefix` and a hyphen.
    pub fn with_prefix(prefix: &str) -> (r: Self)
        ensures
            r.prefix_of() == Some(prefix@),
    {
        UUIDGenerator { prefix: Some(prefix.to_owned()) }
    }
}

impl Clone for UUIDGenerator {
    fn clone(&self) -> (r: Self)
        ensures
            r.prefix_of() == self.prefix_of(),
    {
        UUIDGenerator { prefix: crate::types::clone_opt_string(&self.prefix) }
    }
}

impl IDGenerator for UUIDGenerator {
    /// A fresh UUID, behind the context's prefix when it has one, else
    /// behind the generator's own prefix when it has one.
    open spec fn generates(before: Self, after: Self, context: IDGeneratorContext, id: Seq<char>) -> bool {
        &&& after.prefix_of() == before.prefix_of()
        &&& match context.prefix {
            Some(p) => is_prefixed_uuid(id, p@),
            None => match before.prefix_of() {
                Some(p) => is_prefixed_uuid(id, p),
                None => is_uuid_text_of_version(id, '4'),
            },
        }
    }

    fn generate(&mut self, context: &IDGeneratorContext) -> (r: String) {
        let uuid = crate::external::new_uuid_v4_text();
        let chosen: Option<&String> = match &context.prefix {
            Some(p) => Some(p),
            None => match &self.prefix {
                Some(p) => Some(p),
                None => None,
            },
        };
        match chosen {
            Some(p) => {
                let r = p.clone().concat("-").concat(uuid.as_str());
                proof {
                    reveal_strlit("-");
                    let n = p@.len() as int;
                    assert(r@.subrange(0, n) =~= p@);
                    assert(r@.subrange(n + 1, r@.len() as int) =~= uuid@);
                }
                r
            }
            None => uuid,
        }
    }
}

/// Identifiers `prefix-N` from a counter that goes up by one per id.
#[derive(Debug)]
pub struct SequentialGenerator {
    counter: u64,
    prefix: String,
}

impl SequentialGenerator {
    /// The number the next id carries.
    pub closed spec fn counter(self) -> u64 {
        self.counter
    }

    /// The prefix of each id.
    pub closed spec fn prefix_of(self) -> Seq<char> {
        self.prefix@
    }

    /// A generator whose first id is `prefix-1`.
    pub fn new(prefix: &str) -> (r: Self)
        ensures
            r.counter() == 1,
            r.prefix_of() == prefix@,
    {
        SequentialGenerator { counter: 1, prefix: prefix.to_owned() }
    }

    /// A generator whose first id is `prefix-start`.
    pub fn starting_at(prefix: &str, start: u64) -> (r: Self)
        ensures
            r.counter() == start,
            r.prefix_of() == prefix@,
    {
        SequentialGenerator { counter: start, prefix: prefix.to_owned() }
    }
}

impl IDGenerator for SequentialGenerator {
    /// The prefix, a hyphen and the counter in decimal; the counter then goes
    /// up by one, wrapping at `u64::MAX`.
    open spec fn generates(before: Self, after: Self, context: IDGeneratorContext, id: Seq<char>) -> bool {
        &&& id == before.prefix_of() + "-"@ + decimal(before.counter() as nat)
        &&& after.counter() == before.counter().wrapping_add(1)
        &&& after.prefix_of() == before.prefix_of()
    }

    fn generate(&mut self, context: &IDGeneratorContext) -> (r: String) {
        let id = self.counter;
        self.counter = self.counter.wrapping_add(1);
        let digits = crate::text::u64_to_decimal(id);
        self.prefix.clone().concat("-").concat(digits.as_str())
    }
}

/// A pair of generators: one for task ids, one for context ids.
#[derive(Debug)]
pub struct CompositeGenerator<T: IDGenerator, C: IDGenerator> {
    task_generator: T,
    context_generator: C,
}

impl<T: IDGenerator, C: IDGenerator> CompositeGenerator<T, C> {
    /// The generator of task ids.
    pub closed spec fn task_gen(self) -> T {
        self.task_generator
    }

    /// The generator of context ids.
    pub closed spec fn context_gen(self) -> C {
        self.context_generator
    }

    /// Pairs two generators.
    pub fn new(task_generator: T, context_generator: C) -> (r: Self)
        ensures
            r.task_gen() == task_generator,
            r.context_gen() == context_generator,
    {
        CompositeGenerator { task_generator, context_generator }
    }

    /// A task id from the task generator.
    pub fn generate_task_id(&mut self, context: &IDGeneratorContext) -> (r: String)
        ensures
            T::generates(old(self).task_gen(), final(self).task_gen(), *context, r@),
            final(self).context_gen() == old(self).context_gen(),
    {
        self.task_generator.generate(context)
    }

    /// A context id from the context generator.
    pub fn generate_context_id(&mut self, context: &IDGeneratorContext) -> (r: String)
        ensures
            C::generates(old(self).context_gen(), final(self).context_gen(), *context, r@),
            final(self).task_gen() == old(self).task_gen(),
    {
        self.context_generator.generate(context)
    }
}

/// Two ids that a sequential generator gives one after the other differ,
/// also where its counter wraps.
pub proof fn lemma_sequential_ids_differ(
    g0: SequentialGenerator,
    g1: SequentialGenerator,
    g2: SequentialGenerator,
    c1: IDGeneratorContext,
    c2: IDGeneratorContext,
    id1: Seq<char>,
    id2: Seq<char>,
)
    requires
        SequentialGenerator::generates(g0, g1, c1, id1),
        SequentialGenerator::generates(g1, g2, c2, id2),
    ensures
        id1 != id2,
{
    let p = g0.prefix_of() + "-"@;
    let n = p.len() as int;
    let c: u64 = g0.counter();
    assert(c.wrapping_add(1) != c) by (bit_vector);
    assert(g1.counter() != g0.counter());
    if id1 == id2 {
        assert(id1.subrange(n, id1.len() as int) =~= decimal(g0.counter() as nat));
        assert(id2.subrange(n, id2.len() as int) =~= decimal(g1.counter() as nat));
        crate::text::lemma_decimal_injective(g0.counter() as nat, g1.counter() as nat);
    }
}

} // verus!
