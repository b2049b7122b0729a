//! An insertion-ordered association list keyed by strings, with unique keys.

use vstd::prelude::*;

verus! {

/// `s` lists exactly the entries of `m`, each key once.
pub open spec fn lists_map<V>(s: Seq<(String, V)>, m: Map<Seq<char>, V>) -> bool {
    &&& forall|i: int, j: int|
        0 <= i < s.len() && 0 <= j < s.len() && i != j ==> (#[trigger] s[i]).0@ != (
        #[trigger] s[j]).0@
    &&& forall|i: int| 0 <= i < s.len() ==> m.contains_key((#[trigger] s[i]).0@) && m[s[i].0@] == s[i].1
    &&& forall|k: Seq<char>| #[trigger]
        m.contains_key(k) ==> exists|i: int| 0 <= i < s.len() && (#[trigger] s[i]).0@ == k
}

/// A map from string keys to values that remembers the order of insertion.
pub struct Keyed<V> {
    entries: Vec<(String, V)>,
    contents: Ghost<Map<Seq<char>, V>>,
}

impl<V> View for Keyed<V> {
    type V = Map<Seq<char>, V>;

    closed spec fn view(&self) -> Map<Seq<char>, V> {
        self.contents@
    }
}

impl<V> Keyed<V> {
    /// The entries in insertion order.
    pub closed spec fn entries(&self) -> Seq<(String, V)> {
        self.entries@
    }

    pub open spec fn wf(&self) -> bool {
        lists_map(self.entries(), self@)
    }

    pub fn new() -> (r: Self)
        ensures
            r.wf(),
            r@ == Map::<Seq<char>, V>::empty(),
            r.entries() == Seq::<(String, V)>::empty(),
    {
        Keyed { entries: Vec::new(), contents: Ghost(Map::empty()) }
    }

    fn find(&self, key: &String) -> (r: Option<usize>)
        requires
            self.wf(),
        ensures
            match r {
                Some(i) => i < self.entries@.len() && self.entries@[i as int].0@ == key@,
                None => !self@.contains_key(key@),
            },
    {
        let mut i: usize = 0;
        while i < self.entries.len()
            invariant
                self.wf(),
                i <= self.entries@.len(),
                forall|j: int| 0 <= j < i ==> (#[trigger] self.entries@[j]).0@ != key@,
            decreases self.entries@.len() - i,
        {
            if self.entries[i].0 == *key {
                return Some(i);
            }
            i += 1;
        }
        None
    }

    /// Inserts `value` under `key`, returning the value it replaces.
    /// A new key goes to the end; an existing key keeps its place.
    pub fn insert(&mut self, key: String, value: V) -> (r: Option<V>)
        requires
            old(self).wf(),
        ensures
            final(self).wf(),
            final(self)@ == old(self)@.insert(key@, value),
            r == (if old(self)@.contains_key(key@) {
                Some(old(self)@[key@])
            } else {
                None
            }),
            !old(self)@.contains_key(key@) ==> final(self).entries() == old(self).entries().push(
                (key, value),
            ),
    {
        let ghost k = key@;
        match self.find(&key) {
            Some(i) => {
                let prev = self.entries.remove(i);
                self.entries.insert(i, (key, value));
                self.contents = Ghost(self.contents@.insert(k, value));
                proof {
                    let s = self.entries@;
                    assert forall|j: int| 0 <= j < s.len() implies self@.contains_key(
                        (#[trigger] s[j]).0@,
                    ) && self@[s[j].0@] == s[j].1 by {
                        if j != i {
                            assert(s[j] == old(self).entries@[j]);
                            assert(old(self).entries@[j].0@ != old(self).entries@[i as int].0@);
                        }
                    }
                    assert forall|kk: Seq<char>| #[trigger]
                        self@.contains_key(kk) implies exists|j: int|
                        0 <= j < s.len() && (#[trigger] s[j]).0@ == kk by {
                        if kk != k {
                            let j = choose|j: int|
                                0 <= j < s.len() && (#[trigger] old(self).entries@[j]).0@ == kk;
                            assert(s[j] == old(self).entries@[j]);
                        } else {
                            assert(s[i as int].0@ == kk);
                        }
                    }
                }
                Some(prev.1)
            },
            None => {
                self.entries.push((key, value));
                self.contents = Ghost(self.contents@.insert(k, value));
                proof {
                    let s = self.entries@;
                    let n = old(self).entries@.len() as int;
                    assert forall|j: int| 0 <= j < s.len() implies self@.contains_key(
                        (#[trigger] s[j]).0@,
                    ) && self@[s[j].0@] == s[j].1 by {
                        if j < n {
                            assert(s[j] == old(self).entries@[j]);
                        }
                    }
                    assert forall|kk: Seq<char>| #[trigger]
                        self@.contains_key(kk) implies exists|j: int|
                        0 <= j < s.len() && (#[trigger] s[j]).0@ == kk by {
                        if kk != k {
                            let j = choose|j: int|
                                0 <= j < n && (#[trigger] old(self).entries@[j]).0@ == kk;
                            assert(s[j] == old(self).entries@[j]);
                        } else {
                            assert(s[n].0@ == kk);
                        }
                    }
                    assert forall|a: int, b: int|
                        0 <= a < s.len() && 0 <= b < s.len() && a != b implies (#[trigger] s[a]).0@
                        != (#[trigger] s[b]).0@ by {
                        if a < n && b < n {
                            assert(s[a] == old(self).entries@[a]);
                            assert(s[b] == old(self).entries@[b]);
                        } else if a < n {
                            assert(s[a] == old(self).entries@[a]);
                        } else if b < n {
                            assert(s[b] == old(self).entries@[b]);
                        }
                    }
                }
                None
            },
        }
    }

    /// Removes the entry under `key`, returning its value; the other entries keep
    /// their order.
    pub fn remove(&mut self, key: &String) -> (r: Option<V>)
        requires
            old(self).wf(),
        ensures
            final(self).wf(),
            final(self)@ == old(self)@.remove(key@),
            r == (if old(self)@.contains_key(key@) {
                Some(old(self)@[key@])
            } else {
                None
            }),
    {
        match self.find(key) {
            Some(i) => {
                let prev = self.entries.remove(i);
                self.contents = Ghost(self.contents@.remove(key@));
                proof {
                    let s = self.entries@;
                    let o = old(self).entries@;
                    assert forall|j: int| 0 <= j < s.len() implies self@.contains_key(
                        (#[trigger] s[j]).0@,
                    ) && self@[s[j].0@] == s[j].1 by {
                        if j < i {
                            assert(s[j] == o[j]);
                            assert(o[j].0@ != o[i as int].0@);
                        } else {
                            assert(s[j] == o[j + 1]);
                            assert(o[j + 1].0@ != o[i as int].0@);
                        }
                    }
                    assert forall|kk: Seq<char>| #[trigger]
                        self@.contains_key(kk) implies exists|j: int|
                        0 <= j < s.len() && (#[trigger] s[j]).0@ == kk by {
                        let j = choose|j: int| 0 <= j < o.len() && (#[trigger] o[j]).0@ == kk;
                        if j < i {
                            assert(s[j] == o[j]);
                        } else {
                            assert(j != i);
                            assert(s[j - 1] == o[j]);
                        }
                    }
                    assert forall|a: int, b: int|
                        0 <= a < s.len() && 0 <= b < s.len() && a != b implies (#[trigger] s[a]).0@
                        != (#[trigger] s[b]).0@ by {
                        let a2 = if a < i { a } else { a + 1 };
                        let b2 = if b < i { b } else { b + 1 };
                        assert(s[a] == o[a2]);
                        assert(s[b] == o[b2]);
                    }
                }
                Some(prev.1)
            },
            None => {
                assert(self@ =~= old(self)@.remove(key@));
                None
            },
        }
    }

    /// Whether no entry is present.
    pub fn is_empty(&self) -> (r: bool)
        requires
            self.wf(),
        ensures
            r == (self@ == Map::<Seq<char>, V>::empty()),
    {
        if self.entries.len() == 0 {
            assert(self@ =~= Map::<Seq<char>, V>::empty());
            true
        } else {
            assert(self@.contains_key(self.entries@[0].0@));
            false
        }
    }

    /// Removes every entry.
    pub fn clear(&mut self)
        ensures
            final(self).wf(),
            final(self)@ == Map::<Seq<char>, V>::empty(),
            final(self).entries() == Seq::<(String, V)>::empty(),
    {
        self.entries.clear();
        self.contents = Ghost(Map::empty());
    }

    /// Hands out every entry in insertion order and leaves the map empty.
    pub fn take_all(&mut self) -> (r: Vec<(String, V)>)
        ensures
            r@ == old(self).entries(),
            final(self).wf(),
            final(self)@ == Map::<Seq<char>, V>::empty(),
            final(self).entries() == Seq::<(String, V)>::empty(),
    {
        let mut out: Vec<(String, V)> = Vec::new();
        std::mem::swap(&mut out, &mut self.entries);
        self.contents = Ghost(Map::empty());
        out
    }
}

} // verus!
