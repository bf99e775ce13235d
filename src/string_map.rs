//! An ordered association list from strings to values, with unique keys.
use vstd::prelude::*;
use vstd::string::StringExecFns;

verus! {

/// The map that the first `n` pairs of `keys` and `values` describe, later
/// pairs overriding earlier ones.
pub open spec fn pairs_map<V>(keys: Seq<String>, values: Seq<V>, n: nat) -> Map<Seq<char>, V>
    decreases n,
{
    if n == 0 || n > keys.len() || n > values.len() {
        Map::empty()
    } else {
        pairs_map(keys, values, (n - 1) as nat).insert(keys[n - 1]@, values[n - 1])
    }
}

/// No two keys have the same text.
pub open spec fn keys_unique(keys: Seq<String>) -> bool {
    forall|i: int, j: int| 0 <= i < keys.len() && 0 <= j < keys.len() && i != j ==> keys[i]@ != keys[j]@
}

proof fn lemma_pairs_map_domain<V>(keys: Seq<String>, values: Seq<V>, n: nat, k: Seq<char>)
    requires
        n <= keys.len(),
        n <= values.len(),
    ensures
        pairs_map(keys, values, n).contains_key(k) <==> exists|i: int| 0 <= i < n && keys[i]@ == k,
    decreases n,
{
    if n > 0 {
        lemma_pairs_map_domain(keys, values, (n - 1) as nat, k);
        if pairs_map(keys, values, n).contains_key(k) && keys[n - 1]@ != k {
            let i = choose|i: int| 0 <= i < n - 1 && keys[i]@ == k;
            assert(0 <= i < n && keys[i]@ == k);
        }
    }
}

proof fn lemma_pairs_map_at<V>(keys: Seq<String>, values: Seq<V>, n: nat, i: int)
    requires
        n <= keys.len(),
        n <= values.len(),
        keys_unique(keys),
        0 <= i < n,
    ensures
        pairs_map(keys, values, n).contains_key(keys[i]@),
        pairs_map(keys, values, n)[keys[i]@] == values[i],
    decreases n,
{
    if i < n - 1 {
        lemma_pairs_map_at(keys, values, (n - 1) as nat, i);
    }
}

proof fn lemma_pairs_map_update<V>(keys: Seq<String>, values: Seq<V>, n: nat, i: int, v: V)
    requires
        n <= keys.len(),
        n <= values.len(),
        keys_unique(keys),
        0 <= i < n,
    ensures
        pairs_map(keys, values.update(i, v), n) == pairs_map(keys, values, n).insert(keys[i]@, v),
    decreases n,
{
    if i < n - 1 {
        lemma_pairs_map_update(keys, values, (n - 1) as nat, i, v);
        assert(keys[n - 1]@ != keys[i]@);
        assert(pairs_map(keys, values.update(i, v), n) =~= pairs_map(keys, values, n).insert(
            keys[i]@,
            v,
        ));
    } else {
        assert(pairs_map(keys, values.update(i, v), (n - 1) as nat) == pairs_map(
            keys,
            values,
            (n - 1) as nat,
        )) by {
            lemma_pairs_map_prefix(keys, values, values.update(i, v), (n - 1) as nat);
        }
        assert(pairs_map(keys, values.update(i, v), n) =~= pairs_map(keys, values, n).insert(
            keys[i]@,
            v,
        ));
    }
}

proof fn lemma_pairs_map_prefix<V>(keys: Seq<String>, a: Seq<V>, b: Seq<V>, n: nat)
    requires
        n <= keys.len(),
        n <= a.len(),
        n <= b.len(),
        forall|j: int| 0 <= j < n ==> a[j] == b[j],
    ensures
        pairs_map(keys, a, n) == pairs_map(keys, b, n),
    decreases n,
{
    if n > 0 {
        lemma_pairs_map_prefix(keys, a, b, (n - 1) as nat);
    }
}

proof fn lemma_pairs_map_extend<V>(keys: Seq<String>, values: Seq<V>, k: String, v: V)
    requires
        keys.len() == values.len(),
    ensures
        pairs_map(keys.push(k), values.push(v), (keys.len() + 1) as nat) == pairs_map(
            keys,
            values,
            keys.len(),
        ).insert(k@, v),
{
    lemma_pairs_map_prefix2(keys, keys.push(k), values, values.push(v), keys.len());
}

proof fn lemma_pairs_map_prefix2<V>(k1: Seq<String>, k2: Seq<String>, a: Seq<V>, b: Seq<V>, n: nat)
    requires
        n <= k1.len(),
        n <= k2.len(),
        n <= a.len(),
        n <= b.len(),
        forall|j: int| 0 <= j < n ==> (#[trigger] a[j] == b[j] && k1[j] == k2[j]),
    ensures
        pairs_map(k1, a, n) == pairs_map(k2, b, n),
    decreases n,
{
    if n > 0 {
        let m = n - 1;
        assert(0 <= m < n);
        assert(a[m] == b[m]);
        assert(k1[m] == k2[m]);
        lemma_pairs_map_prefix2(k1, k2, a, b, (n - 1) as nat);
    }
}

proof fn lemma_pairs_map_len<V>(keys: Seq<String>, values: Seq<V>, n: nat)
    requires
        n <= keys.len(),
        n <= values.len(),
        keys_unique(keys),
    ensures
        pairs_map(keys, values, n).dom().finite(),
        pairs_map(keys, values, n).len() == n,
    decreases n,
{
    if n > 0 {
        lemma_pairs_map_len(keys, values, (n - 1) as nat);
        lemma_pairs_map_domain(keys, values, (n - 1) as nat, keys[n - 1]@);
    }
}

/// Pairs of a string key and a value, each key present once, kept in the
/// order in which the keys were first inserted.
pub struct StringMap<V> {
    keys: Vec<String>,
    values: Vec<V>,
}

impl<V> View for StringMap<V> {
    type V = Map<Seq<char>, V>;

    closed spec fn view(&self) -> Map<Seq<char>, V> {
        pairs_map(self.keys@, self.values@, self.keys@.len())
    }
}

impl<V> StringMap<V> {
    /// The keys have unique text and each has its value.
    #[verifier::type_invariant]
    spec fn wf(&self) -> bool {
        self.keys@.len() == self.values@.len() && keys_unique(self.keys@)
    }

    pub fn new() -> (r: Self)
        ensures
            r@ == Map::<Seq<char>, V>::empty(),
    {
        StringMap { keys: Vec::new(), values: Vec::new() }
    }

    pub fn len(&self) -> (r: usize)
        ensures
            r == self@.len(),
    {
        proof {
            use_type_invariant(self);
            lemma_pairs_map_len(self.keys@, self.values@, self.keys@.len());
        }
        self.keys.len()
    }

    /// The keys in order of first insertion, each present once.
    pub fn keys(&self) -> (r: &Vec<String>)
        ensures
            r@.len() == self@.len(),
            forall|k: Seq<char>| self@.contains_key(k) <==> exists|i: int| 0 <= i < r@.len() && #[trigger] r@[i]@ == k,
    {
        proof {
            use_type_invariant(self);
            lemma_pairs_map_len(self.keys@, self.values@, self.keys@.len());
            assert forall|k: Seq<char>| self@.contains_key(k) <==> exists|i: int|
                0 <= i < self.keys@.len() && #[trigger] self.keys@[i]@ == k by {
                lemma_pairs_map_domain(self.keys@, self.values@, self.keys@.len(), k);
            }
        }
        &self.keys
    }

    /// The position of `key` among the keys, if it is present.
    fn position(&self, key: &str) -> (r: Option<usize>)
        ensures
            match r {
                Some(i) => i < self.keys@.len() && self.keys@[i as int]@ == key@,
                None => !self@.contains_key(key@),
            },
    {
        proof {
            use_type_invariant(self);
        }
        let k = String::from_str(key);
        let mut i: usize = 0;
        while i < self.keys.len()
            invariant
                self.keys@.len() == self.values@.len(),
                k@ == key@,
                i <= self.keys@.len(),
                forall|j: int| 0 <= j < i ==> self.keys@[j]@ != key@,
            decreases self.keys@.len() - i,
        {
            if self.keys[i] == k {
                return Some(i);
            }
            i += 1;
        }
        proof {
            lemma_pairs_map_domain(self.keys@, self.values@, self.keys@.len(), key@);
        }
        None
    }

    /// The value held for `key`.
    pub fn get(&self, key: &str) -> (r: Option<&V>)
        ensures
            match r {
                Some(v) => self@.contains_key(key@) && *v == self@[key@],
                None => !self@.contains_key(key@),
            },
    {
        proof {
            use_type_invariant(self);
        }
        match self.position(key) {
            Some(i) => {
                proof {
                    lemma_pairs_map_at(self.keys@, self.values@, self.keys@.len(), i as int);
                }
                Some(&self.values[i])
            },
            None => None,
        }
    }

    /// Sets the value of `key`, replacing the one it had.
    pub fn insert(&mut self, key: String, value: V)
        ensures
            final(self)@ == old(self)@.insert(key@, value),
    {
        proof {
            use_type_invariant(&*self);
        }
        let found = self.position(key.as_str());
        let mut taken = StringMap::new();
        core::mem::swap(&mut taken, self);
        let StringMap { mut keys, mut values } = taken;
        match found {
            Some(i) => {
                proof {
                    lemma_pairs_map_update(keys@, values@, keys@.len(), i as int, value);
                }
                values.set(i, value);
            },
            None => {
                proof {
                    lemma_pairs_map_extend(keys@, values@, key, value);
                    lemma_pairs_map_domain(keys@, values@, keys@.len(), key@);
                }
                let ghost before = keys@;
                keys.push(key);
                values.push(value);
                proof {
                    assert forall|i: int, j: int|
                        0 <= i < keys@.len() && 0 <= j < keys@.len() && i != j implies keys@[i]@
                        != keys@[j]@ by {
                        if i == keys@.len() - 1 {
                            assert(before[j]@ == keys@[j]@);
                        }
                        if j == keys@.len() - 1 {
                            assert(before[i]@ == keys@[i]@);
                        }
                    }
                }
            },
        }
        *self = StringMap { keys, values };
    }

    /// Stores `value` under `key` unless the key is present already; returns
    /// whether it was stored. The value that the map holds for `key` afterwards
    /// is the one that was inserted first.
    pub fn insert_if_absent(&mut self, key: String, value: V) -> (inserted: bool)
        ensures
            inserted == !old(self)@.contains_key(key@),
            final(self)@ == if inserted {
                old(self)@.insert(key@, value)
            } else {
                old(self)@
            },
    {
        proof {
            use_type_invariant(&*self);
        }
        match self.position(key.as_str()) {
            Some(i) => {
                proof {
                    lemma_pairs_map_at(self.keys@, self.values@, self.keys@.len(), i as int);
                }
                false
            },
            None => {
                self.insert(key, value);
                true
            },
        }
    }
}

} // verus!
