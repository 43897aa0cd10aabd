//! A map from text keys to values, seen as a mathematical map from the
//! keys' characters to the values. A later insert under the same key
//! replaces the earlier value, as in a hash map.
use vstd::prelude::*;
use crate::text::same_text;

verus! {

/// Some entry of `s` has the key `k`.
pub open spec fn has_key<V>(s: Seq<(String, V)>, k: Seq<char>) -> bool {
    exists|i: int| 0 <= i < s.len() && s[i].0@ == k
}

/// No two entries of `s` have the same key.
pub open spec fn keys_distinct<V>(s: Seq<(String, V)>) -> bool {
    forall|i: int, j: int| 0 <= i < s.len() && 0 <= j < s.len() && i != j ==> s[i].0@ != s[j].0@
}

/// The map that the entries `s` stand for: each key to the value of an
/// entry that has it.
pub open spec fn map_of<V>(s: Seq<(String, V)>) -> Map<Seq<char>, V> {
    Map::new(
        |k: Seq<char>| has_key(s, k),
        |k: Seq<char>| s[choose|i: int| 0 <= i < s.len() && s[i].0@ == k].1,
    )
}

/// The texts that a map of strings holds, each key to the characters of
/// its value.
pub open spec fn texts_of(m: Map<Seq<char>, String>) -> Map<Seq<char>, Seq<char>> {
    Map::new(|k: Seq<char>| m.contains_key(k), |k: Seq<char>| m[k]@)
}

/// A map from text keys to values.
#[derive(Debug)]
pub struct StrMap<V> {
    entries: Vec<(String, V)>,
}

impl<V> View for StrMap<V> {
    type V = Map<Seq<char>, V>;

    closed spec fn view(&self) -> Map<Seq<char>, V> {
        map_of(self.entries@)
    }
}

proof fn lemma_map_of_at<V>(s: Seq<(String, V)>, i: int)
    requires
        keys_distinct(s),
        0 <= i < s.len(),
    ensures
        map_of(s).contains_key(s[i].0@),
        map_of(s)[s[i].0@] == s[i].1,
{
    assert(has_key(s, s[i].0@));
    let c = choose|c: int| 0 <= c < s.len() && s[c].0@ == s[i].0@;
    assert(c == i);
}

impl<V> StrMap<V> {
    #[verifier::type_invariant]
    spec fn entries_distinct(self) -> bool {
        keys_distinct(self.entries@)
    }

    /// An empty map.
    pub fn new() -> (r: Self)
        ensures
            r@ == Map::<Seq<char>, V>::empty(),
    {
        let r = StrMap { entries: Vec::new() };
        assert(r@ =~= Map::<Seq<char>, V>::empty());
        r
    }

    /// The position of the entry with key `key`, if there is one.
    fn find(&self, key: &str) -> (r: Option<usize>)
        ensures
            match r {
                Some(i) => i < self.entries@.len() && self.entries@[i as int].0@ == key@,
                None => !has_key(self.entries@, key@),
            },
    {
        let n = self.entries.len();
        let mut i: usize = 0;
        while i < n
            invariant
                n == self.entries@.len(),
                0 <= i <= n,
                forall|j: int| 0 <= j < i ==> self.entries@[j].0@ != key@,
            decreases n - i,
        {
            if same_text(self.entries[i].0.as_str(), key) {
                return Some(i);
            }
            i += 1;
        }
        None
    }

    /// The value under `key`, if there is one.
    pub fn get(&self, key: &str) -> (r: Option<&V>)
        ensures
            match r {
                Some(v) => self@.contains_key(key@) && *v == self@[key@],
                None => !self@.contains_key(key@),
            },
    {
        proof {
            use_type_invariant(self);
        }
        match self.find(key) {
            Some(i) => {
                proof {
                    lemma_map_of_at(self.entries@, i as int);
                }
                Some(&self.entries[i].1)
            },
            None => None,
        }
    }

    /// Whether the map has a value under `key`.
    pub fn contains_key(&self, key: &str) -> (r: bool)
        ensures
            r == self@.contains_key(key@),
    {
        self.find(key).is_some()
    }

    /// Whether the map has no key at all.
    pub fn is_empty(&self) -> (r: bool)
        ensures
            r == (self@ == Map::<Seq<char>, V>::empty()),
    {
        proof {
            use_type_invariant(self);
        }
        if self.entries.len() == 0 {
            assert(self@ =~= Map::<Seq<char>, V>::empty());
            true
        } else {
            proof {
                lemma_map_of_at(self.entries@, 0);
                assert(!(self@ =~= Map::<Seq<char>, V>::empty()));
            }
            false
        }
    }

    /// Puts `value` under `key`, in place of the value that was there.
    pub fn insert(&mut self, key: String, value: V)
        ensures
            final(self)@ == old(self)@.insert(key@, value),
    {
        proof {
            use_type_invariant(&*self);
        }
        let ghost s = self.entries@;
        let ghost k = key@;
        let found = self.find(key.as_str());
        let mut entries: Vec<(String, V)> = Vec::new();
        std::mem::swap(&mut entries, &mut self.entries);
        match found {
            Some(i) => {
                entries.set(i, (key, value));
                proof {
                    let t = entries@;
                    assert(t == s.update(i as int, (t[i as int].0, value)));
                    assert(keys_distinct(t));
                    assert forall|x: Seq<char>| has_key(t, x) == (has_key(s, x) || x == k) by {
                        if has_key(s, x) {
                            let j = choose|j: int| 0 <= j < s.len() && s[j].0@ == x;
                            assert(t[j].0@ == x);
                        }
                        if has_key(t, x) {
                            let j = choose|j: int| 0 <= j < t.len() && t[j].0@ == x;
                            assert(s[j].0@ == x);
                        }
                    }
                    assert forall|x: Seq<char>| #[trigger] map_of(t).contains_key(x) implies map_of(
                        t,
                    )[x] == map_of(s).insert(k, value)[x] by {
                        let j = choose|j: int| 0 <= j < t.len() && t[j].0@ == x;
                        lemma_map_of_at(t, j);
                        if j != i {
                            lemma_map_of_at(s, j);
                        }
                    }
                    assert(map_of(t) =~= map_of(s).insert(k, value));
                }
            },
            None => {
                entries.push((key, value));
                proof {
                    let t = entries@;
                    assert(t == s.push((t[s.len() as int].0, value)));
                    assert(keys_distinct(t)) by {
                        assert forall|a: int, b: int|
                            0 <= a < t.len() && 0 <= b < t.len() && a != b implies t[a].0@
                            != t[b].0@ by {
                            if a == s.len() {
                                assert(s[b].0@ != k);
                            } else if b == s.len() {
                                assert(s[a].0@ != k);
                            }
                        }
                    }
                    assert forall|x: Seq<char>| has_key(t, x) == (has_key(s, x) || x == k) by {
                        if has_key(s, x) {
                            let j = choose|j: int| 0 <= j < s.len() && s[j].0@ == x;
                            assert(t[j].0@ == x);
                        }
                        if x == k {
                            assert(t[s.len() as int].0@ == x);
                        }
                    }
                    assert forall|x: Seq<char>| #[trigger] map_of(t).contains_key(x) implies map_of(
                        t,
                    )[x] == map_of(s).insert(k, value)[x] by {
                        let j = choose|j: int| 0 <= j < t.len() && t[j].0@ == x;
                        lemma_map_of_at(t, j);
                        if j != s.len() {
                            lemma_map_of_at(s, j);
                        }
                    }
                    assert(map_of(t) =~= map_of(s).insert(k, value));
                }
            },
        }
        self.entries = entries;
    }

    /// The keys of the map, each once, in no stated order.
    pub fn keys(&self) -> (r: Vec<String>)
        ensures
            forall|i: int| 0 <= i < r@.len() ==> self@.contains_key(#[trigger] r@[i]@),
            forall|k: Seq<char>|
                self@.contains_key(k) ==> exists|i: int| 0 <= i < r@.len() && r@[i]@ == k,
            forall|i: int, j: int|
                0 <= i < r@.len() && 0 <= j < r@.len() && i != j ==> r@[i]@ != r@[j]@,
    {
        proof {
            use_type_invariant(self);
        }
        let n = self.entries.len();
        let mut r: Vec<String> = Vec::new();
        let mut i: usize = 0;
        while i < n
            invariant
                n == self.entries@.len(),
                0 <= i <= n,
                r@.len() == i,
                forall|j: int| 0 <= j < i ==> r@[j]@ == self.entries@[j].0@,
            decreases n - i,
        {
            r.push(self.entries[i].0.clone());
            i += 1;
        }
        proof {
            assert forall|j: int| 0 <= j < r@.len() implies self@.contains_key(
                #[trigger] r@[j]@,
            ) by {
                assert(r@[j]@ == self.entries@[j].0@);
            }
            assert forall|k: Seq<char>| self@.contains_key(k) implies exists|j: int|
                0 <= j < r@.len() && r@[j]@ == k by {
                let j = choose|j: int| 0 <= j < n && self.entries@[j].0@ == k;
                assert(r@[j]@ == k);
            }
        }
        r
    }
}

impl<V: Clone> Clone for StrMap<V> {
    /// A map with the same keys, each value cloned.
    fn clone(&self) -> (r: Self)
        ensures
            r@.dom() == self@.dom(),
            forall|k: Seq<char>| #[trigger] r@.contains_key(k) ==> cloned::<V>(self@[k], r@[k]),
    {
        proof {
            use_type_invariant(self);
        }
        let n = self.entries.len();
        let mut entries: Vec<(String, V)> = Vec::new();
        let mut i: usize = 0;
        while i < n
            invariant
                n == self.entries@.len(),
                keys_distinct(self.entries@),
                0 <= i <= n,
                entries@.len() == i,
                forall|j: int| 0 <= j < i ==> #[trigger] entries@[j].0@ == self.entries@[j].0@,
                forall|j: int|
                    0 <= j < i ==> cloned::<V>(self.entries@[j].1, #[trigger] entries@[j].1),
            decreases n - i,
        {
            let k = self.entries[i].0.clone();
            let v = self.entries[i].1.clone();
            entries.push((k, v));
            proof {
                assert(entries@[i as int].0@ == self.entries@[i as int].0@);
                assert(cloned::<V>(self.entries@[i as int].1, entries@[i as int].1));
            }
            i += 1;
        }
        let ghost s = self.entries@;
        let ghost t = entries@;
        proof {
            assert forall|x: Seq<char>| has_key(t, x) == has_key(s, x) by {
                if has_key(s, x) {
                    let j = choose|j: int| 0 <= j < s.len() && s[j].0@ == x;
                    assert(t[j].0@ == x);
                }
                if has_key(t, x) {
                    let j = choose|j: int| 0 <= j < t.len() && t[j].0@ == x;
                    assert(s[j].0@ == x);
                }
            }
            assert(keys_distinct(t));
        }
        let r = StrMap { entries };
        proof {
            assert(map_of(t).dom() =~= map_of(s).dom());
            assert forall|x: Seq<char>| #[trigger] map_of(t).contains_key(x) implies cloned::<V>(
                map_of(s)[x],
                map_of(t)[x],
            ) by {
                let j = choose|j: int| 0 <= j < t.len() && t[j].0@ == x;
                lemma_map_of_at(t, j);
                lemma_map_of_at(s, j);
            }
        }
        r
    }
}

} // verus!
