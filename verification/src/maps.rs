//! Small association lists, kept in insertion order, that the storage and
//! the client configuration use as maps.

use vstd::prelude::*;

verus! {

/// A map from task ids to values, kept in insertion order.
pub struct IdMap<V> {
    entries: Vec<(u128, V)>,
    model: Ghost<Map<u128, V>>,
}

impl<V> View for IdMap<V> {
    type V = Map<u128, V>;

    closed spec fn view(&self) -> Map<u128, V> {
        self.model@
    }
}

impl<V> IdMap<V> {
    /// The entries, oldest first.
    pub closed spec fn entries(&self) -> Seq<(u128, V)> {
        self.entries@
    }

    /// No key occurs twice, and the entries are exactly the map.
    pub closed spec fn wf(&self) -> bool {
        &&& forall|i: int, j: int|
            0 <= i < j < self.entries@.len() ==> self.entries@[i].0 != self.entries@[j].0
        &&& forall|i: int|
            0 <= i < self.entries@.len() ==> #[trigger] self.model@.contains_key(
                self.entries@[i].0,
            ) && self.model@[self.entries@[i].0] == self.entries@[i].1
        &&& forall|k: u128|
            #[trigger] self.model@.contains_key(k) ==> exists|i: int|
                0 <= i < self.entries@.len() && self.entries@[i].0 == k
    }

    /// What `wf` says, for callers outside this module.
    pub proof fn lemma_wf(&self)
        requires
            self.wf(),
        ensures
            forall|i: int, j: int|
                0 <= i < j < self.entries().len() ==> self.entries()[i].0 != self.entries()[j].0,
            forall|i: int|
                0 <= i < self.entries().len() ==> #[trigger] self@.contains_key(
                    self.entries()[i].0,
                ) && self@[self.entries()[i].0] == self.entries()[i].1,
            forall|k: u128|
                #[trigger] self@.contains_key(k) ==> exists|i: int|
                    0 <= i < self.entries().len() && self.entries()[i].0 == k,
    {
        assert forall|k: u128| #[trigger] self@.contains_key(k) implies exists|i: int|
            0 <= i < self.entries().len() && self.entries()[i].0 == k by {
            let i = choose|i: int| 0 <= i < self.entries@.len() && self.entries@[i].0 == k;
            assert(self.entries()[i].0 == k);
        }
    }

    pub fn new() -> (r: Self)
        ensures
            r.wf(),
            r@ == Map::<u128, V>::empty(),
            r.entries() == Seq::<(u128, V)>::empty(),
    {
        IdMap { entries: Vec::new(), model: Ghost(Map::empty()) }
    }

    pub fn len(&self) -> (r: usize)
        ensures
            r == self.entries().len(),
    {
        self.entries.len()
    }

    /// The entry at position `i`, oldest first.
    pub fn entry(&self, i: usize) -> (r: &(u128, V))
        requires
            i < self.entries().len(),
        ensures
            *r == self.entries()[i as int],
    {
        &self.entries[i]
    }

    fn position(&self, k: u128) -> (r: Option<usize>)
        requires
            self.wf(),
        ensures
            match r {
                Some(i) => i < self.entries@.len() && self.entries@[i as int].0 == k
                    && self.model@.contains_key(k) && self.model@[k] == self.entries@[i as int].1,
                None => !self.model@.contains_key(k),
            },
    {
        let mut i: usize = 0;
        while i < self.entries.len()
            invariant
                self.wf(),
                i <= self.entries@.len(),
                forall|j: int| 0 <= j < i ==> self.entries@[j].0 != k,
            decreases self.entries@.len() - i,
        {
            if self.entries[i].0 == k {
                assert(self.model@.contains_key(self.entries@[i as int].0));
                return Some(i);
            }
            i = i + 1;
        }
        None
    }

    pub fn contains_key(&self, k: u128) -> (r: bool)
        requires
            self.wf(),
        ensures
            r == self@.contains_key(k),
    {
        match self.position(k) {
            Some(_) => true,
            None => false,
        }
    }

    pub fn get(&self, k: u128) -> (r: Option<&V>)
        requires
            self.wf(),
        ensures
            match r {
                Some(v) => self@.contains_key(k) && *v == self@[k],
                None => !self@.contains_key(k),
            },
    {
        match self.position(k) {
            Some(i) => Some(&self.entries[i].1),
            None => None,
        }
    }

    /// Sets the value of `k`. A key already present keeps its place in the
    /// order; a new key goes last. Returns the value it replaced.
    pub fn insert(&mut self, k: u128, v: V) -> (r: Option<V>)
        requires
            old(self).wf(),
        ensures
            final(self).wf(),
            final(self)@ == old(self)@.insert(k, v),
            match r {
                Some(prev) => old(self)@.contains_key(k) && prev == old(self)@[k],
                None => !old(self)@.contains_key(k),
            },
            old(self)@.contains_key(k) ==> final(self).entries().len() == old(self).entries().len(),
            old(self)@.contains_key(k) ==> forall|j: int|
                0 <= j < old(self).entries().len() ==> (#[trigger] final(self).entries()[j]).0
                    == old(self).entries()[j].0,
            !old(self)@.contains_key(k) ==> final(self).entries() == old(self).entries().push(
                (k, v),
            ),
    {
        match self.position(k) {
            Some(i) => {
                let ghost m = self.model@;
                let (_, prev) = self.entries.remove(i);
                self.entries.insert(i, (k, v));
                self.model = Ghost(m.insert(k, v));
                assert forall|kk: u128| #[trigger] self.model@.contains_key(kk) implies exists|
                    j: int,
                |
                    0 <= j < self.entries@.len() && self.entries@[j].0 == kk by {
                    if kk == k {
                        assert(self.entries@[i as int].0 == kk);
                    } else {
                        assert(m.contains_key(kk));
                        let j = choose|j: int| 0 <= j < old(self).entries@.len() && old(self).entries@[j].0 == kk;
                        assert(self.entries@[j].0 == kk);
                    }
                }
                Some(prev)
            },
            None => {
                let ghost m = self.model@;
                self.entries.push((k, v));
                self.model = Ghost(m.insert(k, v));
                assert forall|kk: u128| #[trigger] self.model@.contains_key(kk) implies exists|
                    j: int,
                |
                    0 <= j < self.entries@.len() && self.entries@[j].0 == kk by {
                    if kk == k {
                        assert(self.entries@[self.entries@.len() - 1].0 == kk);
                    } else {
                        assert(m.contains_key(kk));
                        let j = choose|j: int| 0 <= j < old(self).entries@.len() && old(self).entries@[j].0 == kk;
                        assert(self.entries@[j].0 == kk);
                    }
                }
                None
            },
        }
    }

    /// Removes `k`; the others keep their order. Returns the removed value.
    pub fn remove(&mut self, k: u128) -> (r: Option<V>)
        requires
            old(self).wf(),
        ensures
            final(self).wf(),
            final(self)@ == old(self)@.remove(k),
            match r {
                Some(v) => old(self)@.contains_key(k) && v == old(self)@[k],
                None => !old(self)@.contains_key(k) && final(self).entries() == old(
                    self,
                ).entries(),
            },
    {
        match self.position(k) {
            Some(i) => {
                let ghost m = self.model@;
                let ghost e = self.entries@;
                let (_, v) = self.entries.remove(i);
                self.model = Ghost(m.remove(k));
                assert forall|a: int, b: int|
                    0 <= a < b < self.entries@.len() implies self.entries@[a].0
                    != self.entries@[b].0 by {
                    let aa = if a < i { a } else { a + 1 };
                    let bb = if b < i { b } else { b + 1 };
                    assert(self.entries@[a] == e[aa]);
                    assert(self.entries@[b] == e[bb]);
                }
                assert forall|a: int| 0 <= a < self.entries@.len() implies #[trigger] self.model@.contains_key(
                    self.entries@[a].0,
                ) && self.model@[self.entries@[a].0] == self.entries@[a].1 by {
                    let aa = if a < i { a } else { a + 1 };
                    assert(self.entries@[a] == e[aa]);
                    assert(e[aa].0 != e[i as int].0);
                    assert(m.contains_key(e[aa].0));
                }
                assert forall|kk: u128| #[trigger] self.model@.contains_key(kk) implies exists|
                    j: int,
                |
                    0 <= j < self.entries@.len() && self.entries@[j].0 == kk by {
                    assert(m.contains_key(kk));
                    let j = choose|j: int| 0 <= j < e.len() && e[j].0 == kk;
                    assert(j != i);
                    if j < i {
                        assert(self.entries@[j] == e[j]);
                    } else {
                        assert(self.entries@[j - 1] == e[j]);
                    }
                }
                Some(v)
            },
            None => {
                assert(self.model@.remove(k) =~= self.model@);
                None
            },
        }
    }
}

/// A map keyed by strings, compared by their characters, kept in insertion
/// order.
pub struct NameMap<V> {
    entries: Vec<(String, V)>,
    model: Ghost<Map<Seq<char>, V>>,
}

impl<V> View for NameMap<V> {
    type V = Map<Seq<char>, V>;

    closed spec fn view(&self) -> Map<Seq<char>, V> {
        self.model@
    }
}

impl<V> NameMap<V> {
    /// The keys' characters and the values, oldest first.
    pub closed spec fn entries(&self) -> Seq<(Seq<char>, V)> {
        self.entries@.map_values(|e: (String, V)| (e.0@, e.1))
    }

    pub closed spec fn wf(&self) -> bool {
        &&& forall|i: int, j: int|
            0 <= i < j < self.entries@.len() ==> self.entries@[i].0@ != self.entries@[j].0@
        &&& forall|i: int|
            0 <= i < self.entries@.len() ==> #[trigger] self.model@.contains_key(
                self.entries@[i].0@,
            ) && self.model@[self.entries@[i].0@] == self.entries@[i].1
        &&& forall|k: Seq<char>|
            #[trigger] self.model@.contains_key(k) ==> exists|i: int|
                0 <= i < self.entries@.len() && self.entries@[i].0@ == k
    }

    /// What `wf` says, for callers outside this module.
    pub proof fn lemma_wf(&self)
        requires
            self.wf(),
        ensures
            forall|i: int, j: int|
                0 <= i < j < self.entries().len() ==> self.entries()[i].0 != self.entries()[j].0,
            forall|i: int|
                0 <= i < self.entries().len() ==> #[trigger] self@.contains_key(
                    self.entries()[i].0,
                ) && self@[self.entries()[i].0] == self.entries()[i].1,
            forall|k: Seq<char>|
                #[trigger] self@.contains_key(k) ==> exists|i: int|
                    0 <= i < self.entries().len() && self.entries()[i].0 == k,
    {
        assert forall|k: Seq<char>| #[trigger] self@.contains_key(k) implies exists|i: int|
            0 <= i < self.entries().len() && self.entries()[i].0 == k by {
            let i = choose|i: int| 0 <= i < self.entries@.len() && self.entries@[i].0@ == k;
            assert(self.entries()[i].0 == k);
        }
        assert forall|i: int|
            0 <= i < self.entries().len() implies #[trigger] self@.contains_key(
                self.entries()[i].0,
            ) && self@[self.entries()[i].0] == self.entries()[i].1 by {
            assert(self.model@.contains_key(self.entries@[i].0@));
        }
    }

    pub fn new() -> (r: Self)
        ensures
            r.wf(),
            r@ == Map::<Seq<char>, V>::empty(),
            r.entries() == Seq::<(Seq<char>, V)>::empty(),
    {
        let r = NameMap { entries: Vec::new(), model: Ghost(Map::empty()) };
        assert(r.entries() =~= Seq::<(Seq<char>, V)>::empty());
        r
    }

    pub fn len(&self) -> (r: usize)
        ensures
            r == self.entries().len(),
    {
        self.entries.len()
    }

    /// The key and value at position `i`, oldest first.
    pub fn entry(&self, i: usize) -> (r: (&String, &V))
        requires
            i < self.entries().len(),
        ensures
            r.0@ == self.entries()[i as int].0,
            *r.1 == self.entries()[i as int].1,
    {
        let e = &self.entries[i];
        (&e.0, &e.1)
    }

    fn position(&self, k: &str) -> (r: Option<usize>)
        requires
            self.wf(),
        ensures
            match r {
                Some(i) => i < self.entries@.len() && self.entries@[i as int].0@ == k@
                    && self.model@.contains_key(k@) && self.model@[k@] == self.entries@[i as int].1,
                None => !self.model@.contains_key(k@),
            },
    {
        let mut i: usize = 0;
        while i < self.entries.len()
            invariant
                self.wf(),
                i <= self.entries@.len(),
                forall|j: int| 0 <= j < i ==> self.entries@[j].0@ != k@,
            decreases self.entries@.len() - i,
        {
            if crate::text::str_eq(self.entries[i].0.as_str(), k) {
                assert(self.model@.contains_key(self.entries@[i as int].0@));
                return Some(i);
            }
            i = i + 1;
        }
        None
    }

    pub fn contains_key(&self, k: &str) -> (r: bool)
        requires
            self.wf(),
        ensures
            r == self@.contains_key(k@),
    {
        match self.position(k) {
            Some(_) => true,
            None => false,
        }
    }

    pub fn get(&self, k: &str) -> (r: Option<&V>)
        requires
            self.wf(),
        ensures
            match r {
                Some(v) => self@.contains_key(k@) && *v == self@[k@],
                None => !self@.contains_key(k@),
            },
    {
        match self.position(k) {
            Some(i) => Some(&self.entries[i].1),
            None => None,
        }
    }

    /// Sets the value of `k`. A key already present keeps its place in the
    /// order; a new key goes last. Returns the value it replaced.
    pub fn insert(&mut self, k: String, v: V) -> (r: Option<V>)
        requires
            old(self).wf(),
        ensures
            final(self).wf(),
            final(self)@ == old(self)@.insert(k@, v),
            match r {
                Some(prev) => old(self)@.contains_key(k@) && prev == old(self)@[k@],
                None => !old(self)@.contains_key(k@),
            },
            !old(self)@.contains_key(k@) ==> final(self).entries() == old(self).entries().push(
                (k@, v),
            ),
    {
        match self.position(k.as_str()) {
            Some(i) => {
                let ghost m = self.model@;
                let ghost kv = k@;
                let ghost e = self.entries@;
                let (_, prev) = self.entries.remove(i);
                self.entries.insert(i, (k, v));
                self.model = Ghost(m.insert(kv, v));
                assert(self.entries@ == e.update(i as int, (self.entries@[i as int].0, v)));
                assert forall|a: int, b: int|
                    0 <= a < b < self.entries@.len() implies self.entries@[a].0@
                    != self.entries@[b].0@ by {
                    assert(e[a].0@ != e[b].0@);
                }
                assert forall|a: int| 0 <= a < self.entries@.len() implies #[trigger] self.model@.contains_key(
                    self.entries@[a].0@,
                ) && self.model@[self.entries@[a].0@] == self.entries@[a].1 by {
                    if a != i {
                        assert(m.contains_key(e[a].0@));
                        assert(e[a].0@ != e[i as int].0@);
                    }
                }
                assert forall|kk: Seq<char>| #[trigger] self.model@.contains_key(kk) implies exists|
                    j: int,
                |
                    0 <= j < self.entries@.len() && self.entries@[j].0@ == kk by {
                    if kk == kv {
                        assert(self.entries@[i as int].0@ == kk);
                    } else {
                        assert(m.contains_key(kk));
                        let j = choose|j: int| 0 <= j < old(self).entries@.len() && old(self).entries@[j].0@ == kk;
                        assert(self.entries@[j].0@ == kk);
                    }
                }
                Some(prev)
            },
            None => {
                let ghost m = self.model@;
                let ghost kv = k@;
                self.entries.push((k, v));
                self.model = Ghost(m.insert(kv, v));
                assert forall|a: int| 0 <= a < self.entries@.len() implies #[trigger] self.model@.contains_key(
                    self.entries@[a].0@,
                ) && self.model@[self.entries@[a].0@] == self.entries@[a].1 by {
                    if a < self.entries@.len() - 1 {
                        assert(m.contains_key(old(self).entries@[a].0@));
                    }
                }
                assert forall|kk: Seq<char>| #[trigger] self.model@.contains_key(kk) implies exists|
                    j: int,
                |
                    0 <= j < self.entries@.len() && self.entries@[j].0@ == kk by {
                    if kk == kv {
                        assert(self.entries@[self.entries@.len() - 1].0@ == kk);
                    } else {
                        assert(m.contains_key(kk));
                        let j = choose|j: int| 0 <= j < old(self).entries@.len() && old(self).entries@[j].0@ == kk;
                        assert(self.entries@[j].0@ == kk);
                    }
                }
                assert(self.entries() =~= old(self).entries().push((kv, v)));
                None
            },
        }
    }

    /// Removes `k`; the others keep their order. Returns the removed value.
    pub fn remove(&mut self, k: &str) -> (r: Option<V>)
        requires
            old(self).wf(),
        ensures
            final(self).wf(),
            final(self)@ == old(self)@.remove(k@),
            match r {
                Some(v) => old(self)@.contains_key(k@) && v == old(self)@[k@],
                None => !old(self)@.contains_key(k@),
            },
    {
        match self.position(k) {
            Some(i) => {
                let ghost m = self.model@;
                let ghost e = self.entries@;
                let (_, v) = self.entries.remove(i);
                self.model = Ghost(m.remove(k@));
                assert forall|a: int, b: int|
                    0 <= a < b < self.entries@.len() implies self.entries@[a].0@
                    != self.entries@[b].0@ by {
                    let aa = if a < i { a } else { a + 1 };
                    let bb = if b < i { b } else { b + 1 };
                    assert(self.entries@[a] == e[aa]);
                    assert(self.entries@[b] == e[bb]);
                }
                assert forall|a: int| 0 <= a < self.entries@.len() implies #[trigger] self.model@.contains_key(
                    self.entries@[a].0@,
                ) && self.model@[self.entries@[a].0@] == self.entries@[a].1 by {
                    let aa = if a < i { a } else { a + 1 };
                    assert(self.entries@[a] == e[aa]);
                    assert(e[aa].0@ != e[i as int].0@);
                    assert(m.contains_key(e[aa].0@));
                }
                assert forall|kk: Seq<char>| #[trigger] self.model@.contains_key(kk) implies exists|
                    j: int,
                |
                    0 <= j < self.entries@.len() && self.entries@[j].0@ == kk by {
                    assert(m.contains_key(kk));
                    let j = choose|j: int| 0 <= j < e.len() && e[j].0@ == kk;
                    assert(j != i);
                    if j < i {
                        assert(self.entries@[j] == e[j]);
                    } else {
                        assert(self.entries@[j - 1] == e[j]);
                    }
                }
                Some(v)
            },
            None => {
                assert(self.model@.remove(k@) =~= self.model@);
                None
            },
        }
    }
}

} // verus!
