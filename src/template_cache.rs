//! A cache of compiled templates keyed by path, filled lazily and shared by
//! concurrent requests: an entry, once stored, is never replaced, so racing
//! requests that compile the same template all end up using one entry.
use vstd::prelude::*;
use crate::string_map::StringMap;

verus! {

/// `m` after one requester that missed the cache stores `value` under `key`:
/// the entry stays as it is where there is one.
pub open spec fn insert_if_absent<T>(m: Map<Seq<char>, T>, key: Seq<char>, value: T) -> Map<Seq<char>, T> {
    if m.contains_key(key) {
        m
    } else {
        m.insert(key, value)
    }
}

/// `m` after each of `values` was stored under `key` in turn, whatever order
/// the requesters came in.
pub open spec fn after_inserts<T>(m: Map<Seq<char>, T>, key: Seq<char>, values: Seq<T>) -> Map<Seq<char>, T>
    decreases values.len(),
{
    if values.len() == 0 {
        m
    } else {
        insert_if_absent(after_inserts(m, key, values.drop_last()), key, values.last())
    }
}

/// However many requesters store their own compiled value under one key, and
/// in whatever order, the cache ends up with exactly one entry for that key,
/// holding the value already there or else the first one stored, and no
/// other entry changes.
pub proof fn lemma_racing_inserts<T>(m: Map<Seq<char>, T>, key: Seq<char>, values: Seq<T>)
    requires
        values.len() > 0,
    ensures
        after_inserts(m, key, values).dom() == m.dom().insert(key),
        after_inserts(m, key, values)[key] == if m.contains_key(key) {
            m[key]
        } else {
            values[0]
        },
        forall|k: Seq<char>| k != key && #[trigger] m.contains_key(k) ==> after_inserts(m, key, values)[k] == m[k],
    decreases values.len(),
{
    let prev = after_inserts(m, key, values.drop_last());
    if values.len() > 1 {
        lemma_racing_inserts(m, key, values.drop_last());
        assert(values.drop_last()[0] == values[0]);
        assert(prev.contains_key(key));
    } else {
        assert(values.drop_last().len() == 0);
        assert(prev == m);
    }
    assert(after_inserts(m, key, values) == insert_if_absent(prev, key, values.last()));
    assert(after_inserts(m, key, values).dom() =~= m.dom().insert(key));
}

/// Compiled templates keyed by their path.
pub struct TemplateCache<T> {
    entries: StringMap<T>,
}

impl<T> View for TemplateCache<T> {
    type V = Map<Seq<char>, T>;

    closed spec fn view(&self) -> Map<Seq<char>, T> {
        self.entries@
    }
}

impl<T> TemplateCache<T> {
    pub fn new() -> (r: Self)
        ensures
            r@ == Map::<Seq<char>, T>::empty(),
    {
        TemplateCache { entries: StringMap::new() }
    }

    /// The number of cached templates.
    pub fn len(&self) -> (r: usize)
        ensures
            r == self@.len(),
    {
        self.entries.len()
    }

    /// The template cached for `path`.
    pub fn get(&self, path: &str) -> (r: Option<&T>)
        ensures
            match r {
                Some(t) => self@.contains_key(path@) && *t == self@[path@],
                None => !self@.contains_key(path@),
            },
    {
        self.entries.get(path)
    }

    /// Stores `template` for `path` unless a template is cached for it
    /// already; returns whether it was stored.
    pub fn insert_if_absent(&mut self, path: String, template: T) -> (inserted: bool)
        ensures
            inserted == !old(self)@.contains_key(path@),
            final(self)@ == insert_if_absent(old(self)@, path@, template),
    {
        self.entries.insert_if_absent(path, template)
    }
}

} // verus!
