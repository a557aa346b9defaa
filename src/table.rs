use vstd::prelude::*;

verus! {

/// The abstract content of a list of named values whose names are unique.
pub open spec fn named_to_map<V>(s: Seq<(String, V)>) -> Map<Seq<char>, V> {
    Map::new(
        |k: Seq<char>| exists|i: int| 0 <= i < s.len() && s[i].0@ == k,
        |k: Seq<char>| s[choose|i: int| 0 <= i < s.len() && s[i].0@ == k].1,
    )
}

/// No name occurs twice.
pub open spec fn names_unique<V>(s: Seq<(String, V)>) -> bool {
    forall|i: int, j: int| 0 <= i < s.len() && 0 <= j < s.len() && i != j ==> s[i].0@ != s[j].0@
}

/// Appending a pair with a new name binds that name and keeps the others.
pub proof fn lemma_named_push<V>(s: Seq<(String, V)>, x: (String, V))
    requires
        names_unique(s.push(x)),
    ensures
        named_to_map(s.push(x)) == named_to_map(s).insert(x.0@, x.1),
{
    let s1 = s.push(x);
    let m0 = named_to_map(s).insert(x.0@, x.1);
    assert forall|q: Seq<char>| #[trigger] named_to_map(s1).contains_key(q) == m0.contains_key(q) by {
        if named_to_map(s).contains_key(q) {
            let j = choose|j: int| 0 <= j < s.len() && s[j].0@ == q;
            assert(s1[j].0@ == q);
        }
        if q == x.0@ {
            assert(s1[s.len() as int].0@ == q);
        }
        if named_to_map(s1).contains_key(q) && q != x.0@ {
            let j = choose|j: int| 0 <= j < s1.len() && s1[j].0@ == q;
            assert(s[j].0@ == q);
        }
    }
    assert forall|q: Seq<char>| #[trigger] named_to_map(s1).contains_key(q) implies named_to_map(s1)[q]
        == m0[q] by {
        let j = choose|j: int| 0 <= j < s1.len() && s1[j].0@ == q;
        if q != x.0@ {
            let j0 = choose|j: int| 0 <= j < s.len() && s[j].0@ == q;
            assert(s1[j0].0@ == q);
            assert(j == j0);
        } else {
            assert(s1[s.len() as int].0@ == q);
        }
    }
    assert(named_to_map(s1) =~= m0);
}

/// A table from names to values; a name occurs at most once.
pub struct NameTable<V> {
    entries: Vec<(String, V)>,
}

impl<V> View for NameTable<V> {
    type V = Map<Seq<char>, V>;

    closed spec fn view(&self) -> Map<Seq<char>, V> {
        named_to_map(self.entries@)
    }
}

impl<V> NameTable<V> {
    pub closed spec fn wf(&self) -> bool {
        names_unique(self.entries@)
    }

    /// The entries in the order in which their names were first inserted.
    pub closed spec fn entries(&self) -> Seq<(String, V)> {
        self.entries@
    }

    /// The table's content is that of its entries.
    pub proof fn lemma_entries(&self)
        ensures
            self@ == named_to_map(self.entries()),
            self.wf() == names_unique(self.entries()),
    {
    }

    /// The entry at position `i` of `entries()`.
    pub fn entry_at(&self, i: usize) -> (r: &(String, V))
        requires
            i < self.entries().len(),
        ensures
            *r == self.entries()[i as int],
    {
        &self.entries[i]
    }

    /// The names in the order in which they were first inserted.
    pub closed spec fn names(&self) -> Seq<Seq<char>> {
        self.entries@.map_values(|p: (String, V)| p.0@)
    }

    /// An empty table.
    pub fn new() -> (r: NameTable<V>)
        ensures
            r.wf(),
            r@ == Map::<Seq<char>, V>::empty(),
    {
        let r = NameTable { entries: Vec::new() };
        assert(r@ =~= Map::<Seq<char>, V>::empty());
        r
    }

    /// The table's names are finitely many, one per entry.
    pub proof fn lemma_names(&self)
        requires
            self.wf(),
        ensures
            self@.dom().finite(),
            self@.len() == self.names().len(),
            self.names().no_duplicates(),
            self.names().to_set() == self@.dom(),
    {
        let s = self.entries@;
        let keys = self.names();
        assert(self@.dom() =~= keys.to_set()) by {
            assert forall|k: Seq<char>| self@.dom().contains(k) implies keys.to_set().contains(k) by {
                let i = choose|i: int| 0 <= i < s.len() && s[i].0@ == k;
                assert(keys[i] == k);
            }
            assert forall|k: Seq<char>| keys.to_set().contains(k) implies self@.dom().contains(k) by {
                let i = choose|i: int| 0 <= i < keys.len() && keys[i] == k;
                assert(s[i].0@ == k);
            }
        }
        keys.unique_seq_to_set();
    }

    /// Number of names.
    pub fn len(&self) -> (n: usize)
        requires
            self.wf(),
        ensures
            n == self@.len(),
            n == self.entries().len(),
    {
        proof {
            self.lemma_names();
        }
        self.entries.len()
    }

    /// The name at position `i` of `names()`.
    pub fn name_at(&self, i: usize) -> (r: &String)
        requires
            i < self.names().len(),
        ensures
            r@ == self.names()[i as int],
    {
        &self.entries[i].0
    }

    fn find(&self, name: &str) -> (r: Option<usize>)
        requires
            self.wf(),
        ensures
            match r {
                Some(i) => i < self.entries@.len() && self.entries@[i as int].0@ == name@
                    && self@.contains_key(name@) && self@[name@] == self.entries@[i as int].1,
                None => !self@.contains_key(name@),
            },
    {
        let k = name.to_owned();
        let mut i: usize = 0;
        while i < self.entries.len()
            invariant
                0 <= i <= self.entries@.len(),
                k@ == name@,
                self.wf(),
                forall|j: int| 0 <= j < i ==> self.entries@[j].0@ != name@,
            decreases self.entries@.len() - i,
        {
            if self.entries[i].0 == k {
                let ghost s = self.entries@;
                assert(s[i as int].0@ == name@);
                assert(self@.contains_key(name@));
                let ghost j = choose|j: int| 0 <= j < s.len() && s[j].0@ == name@;
                assert(j == i);
                return Some(i);
            }
            i = i + 1;
        }
        None
    }

    /// Whether `name` is in the table.
    pub fn contains(&self, name: &str) -> (r: bool)
        requires
            self.wf(),
        ensures
            r == self@.contains_key(name@),
    {
        self.find(name).is_some()
    }

    /// The value stored under `name`.
    pub fn get(&self, name: &str) -> (r: Option<&V>)
        requires
            self.wf(),
        ensures
            match r {
                Some(v) => self@.contains_key(name@) && *v == self@[name@],
                None => !self@.contains_key(name@),
            },
    {
        match self.find(name) {
            Some(i) => Some(&self.entries[i].1),
            None => None,
        }
    }

    /// Binds `name` to `value`, replacing an earlier value of the same name.
    pub fn insert(&mut self, name: &str, value: V)
        requires
            old(self).wf(),
        ensures
            final(self).wf(),
            final(self)@ == old(self)@.insert(name@, value),
    {
        let k = name.to_owned();
        let ghost s0 = self.entries@;
        let ghost m0 = old(self)@.insert(name@, value);
        match self.find(name) {
            Some(i) => {
                self.entries.set(i, (k, value));
                let ghost s1 = self.entries@;
                assert forall|q: Seq<char>| #[trigger] self@.contains_key(q) == m0.contains_key(q) by {
                    if old(self)@.contains_key(q) {
                        let j = choose|j: int| 0 <= j < s0.len() && s0[j].0@ == q;
                        assert(s1[j].0@ == q);
                    }
                }
                assert forall|q: Seq<char>| #[trigger] self@.contains_key(q) implies self@[q] == m0[q] by {
                    let j = choose|j: int| 0 <= j < s1.len() && s1[j].0@ == q;
                    if q != name@ {
                        let j0 = choose|j: int| 0 <= j < s0.len() && s0[j].0@ == q;
                        assert(s0[j].0@ == q);
                        assert(j == j0);
                    }
                }
                assert(self@ =~= m0);
            },
            None => {
                let ghost x = (k, value);
                self.entries.push((k, value));
                assert(self.entries@ == s0.push(x));
                assert forall|j: int| 0 <= j < s0.len() implies s0[j].0@ != name@ by {
                    if s0[j].0@ == name@ {
                        assert(old(self)@.contains_key(name@));
                    }
                }
                proof {
                    lemma_named_push(s0, x);
                }
                assert(self@ =~= m0);
            },
        }
    }

    /// Removes `name` from the table and hands back its value.
    pub fn take(&mut self, name: &str) -> (r: Option<V>)
        requires
            old(self).wf(),
        ensures
            final(self).wf(),
            final(self)@ == old(self)@.remove(name@),
            match r {
                Some(v) => old(self)@.contains_key(name@) && v == old(self)@[name@],
                None => !old(self)@.contains_key(name@),
            },
    {
        let ghost s0 = self.entries@;
        let ghost m0 = old(self)@.remove(name@);
        match self.find(name) {
            Some(i) => {
                let (_, v) = self.entries.remove(i);
                let ghost s1 = self.entries@;
                assert forall|q: Seq<char>| #[trigger] self@.contains_key(q) == m0.contains_key(q) by {
                    if m0.contains_key(q) {
                        let j = choose|j: int| 0 <= j < s0.len() && s0[j].0@ == q;
                        if j < i {
                            assert(s1[j].0@ == q);
                        } else {
                            assert(s1[j - 1].0@ == q);
                        }
                    }
                    if self@.contains_key(q) {
                        let j = choose|j: int| 0 <= j < s1.len() && s1[j].0@ == q;
                        if j < i {
                            assert(s0[j].0@ == q);
                        } else {
                            assert(s0[j + 1].0@ == q);
                        }
                    }
                }
                assert forall|q: Seq<char>| #[trigger] self@.contains_key(q) implies self@[q] == m0[q] by {
                    let j = choose|j: int| 0 <= j < s1.len() && s1[j].0@ == q;
                    let j0 = choose|j: int| 0 <= j < s0.len() && s0[j].0@ == q;
                    if j < i {
                        assert(s0[j].0@ == q);
                        assert(j == j0);
                    } else {
                        assert(s0[j + 1].0@ == q);
                        assert(j + 1 == j0);
                    }
                }
                assert(self@ =~= m0);
                Some(v)
            },
            None => {
                assert(self@ =~= m0);
                None
            },
        }
    }
}

impl NameTable<String> {
    /// A copy of this table.
    pub fn duplicate(&self) -> (r: NameTable<String>)
        ensures
            r.entries() == self.entries(),
            r@ == self@,
            r.wf() == self.wf(),
    {
        let mut entries: Vec<(String, String)> = Vec::new();
        let mut i: usize = 0;
        while i < self.entries.len()
            invariant
                0 <= i <= self.entries@.len(),
                entries@ == self.entries@.subrange(0, i as int),
            decreases self.entries@.len() - i,
        {
            entries.push((self.entries[i].0.clone(), self.entries[i].1.clone()));
            i = i + 1;
            assert(entries@ =~= self.entries@.subrange(0, i as int));
        }
        assert(entries@ =~= self.entries@);
        NameTable { entries }
    }
}

} // verus!
