use vstd::prelude::*;
use crate::table::{NameTable, lemma_named_push, named_to_map};

verus! {

/// A mapping from string keys to string values; a key occurs at most once.
pub struct ParamMap {
    table: NameTable<String>,
}

impl View for ParamMap {
    type V = Map<Seq<char>, Seq<char>>;

    closed spec fn view(&self) -> Map<Seq<char>, Seq<char>> {
        self.table@.map_values(|v: String| v@)
    }
}

impl ParamMap {
    /// The pairs in the order in which their keys were first inserted.
    pub closed spec fn pairs(&self) -> Seq<(String, String)> {
        self.table.entries()
    }

    pub closed spec fn wf(&self) -> bool {
        self.table.wf()
    }

    /// An empty mapping.
    pub fn new() -> (r: ParamMap)
        ensures
            r.wf(),
            r@ == Map::<Seq<char>, Seq<char>>::empty(),
    {
        let r = ParamMap { table: NameTable::new() };
        assert(r@ =~= Map::<Seq<char>, Seq<char>>::empty());
        r
    }

    /// Number of keys.
    pub fn len(&self) -> (n: usize)
        requires
            self.wf(),
        ensures
            n == self@.len(),
            n == self.pairs().len(),
    {
        assert(self@.dom() =~= self.table@.dom());
        self.table.len()
    }

    /// The value stored under `key`.
    pub fn get(&self, key: &str) -> (r: Option<String>)
        requires
            self.wf(),
        ensures
            match r {
                Some(v) => self@.contains_key(key@) && v@ == self@[key@],
                None => !self@.contains_key(key@),
            },
    {
        match self.table.get(key) {
            Some(v) => Some(v.clone()),
            None => None,
        }
    }

    /// Binds `key` to `value`, replacing an earlier value of the same key.
    pub fn insert(&mut self, key: &str, value: &str)
        requires
            old(self).wf(),
        ensures
            final(self).wf(),
            final(self)@ == old(self)@.insert(key@, value@),
    {
        self.table.insert(key, value.to_owned());
        assert(self@ =~= old(self)@.insert(key@, value@));
    }

    /// A copy of this mapping.
    pub fn duplicate(&self) -> (r: ParamMap)
        ensures
            r.pairs() == self.pairs(),
            r@ == self@,
            r.wf() == self.wf(),
    {
        ParamMap { table: self.table.duplicate() }
    }

    /// Binds every key of `other` to its value there, keeping the other
    /// keys as they were.
    pub fn insert_all(&mut self, other: &ParamMap)
        requires
            old(self).wf(),
            other.wf(),
        ensures
            final(self).wf(),
            final(self)@ == old(self)@.union_prefer_right(other@),
    {
        let ghost m0 = self@;
        let ghost es = other.table.entries();
        let n = other.table.len();
        proof {
            other.table.lemma_entries();
        }
        let mut i: usize = 0;
        assert(named_to_map(es.subrange(0, 0)).map_values(|v: String| v@) =~= Map::<Seq<char>, Seq<char>>::empty());
        assert(m0 =~= m0.union_prefer_right(Map::<Seq<char>, Seq<char>>::empty()));
        while i < n
            invariant
                self.wf(),
                other.wf(),
                n == es.len(),
                es == other.table.entries(),
                crate::table::names_unique(es),
                0 <= i <= n,
                self@ == m0.union_prefer_right(named_to_map(es.subrange(0, i as int)).map_values(|v: String| v@)),
            decreases n - i,
        {
            let ghost sub = es.subrange(0, i as int);
            let ghost x = es[i as int];
            let e = other.table.entry_at(i);
            self.insert(e.0.as_str(), e.1.as_str());
            assert(es.subrange(0, i + 1) =~= sub.push(x));
            proof {
                assert(crate::table::names_unique(sub.push(x)));
                lemma_named_push(sub, x);
            }
            assert(named_to_map(sub.push(x)).map_values(|v: String| v@) =~= named_to_map(sub).map_values(|v: String| v@).insert(
                x.0@,
                x.1@,
            ));
            assert(self@ =~= m0.union_prefer_right(named_to_map(sub.push(x)).map_values(|v: String| v@)));
            i = i + 1;
        }
        assert(es.subrange(0, i as int) =~= es);
        assert(other@ =~= named_to_map(es).map_values(|v: String| v@));
    }

    /// The key and value of the pair at position `i`.
    pub fn entry(&self, i: usize) -> (r: (String, String))
        requires
            i < self.pairs().len(),
        ensures
            r == self.pairs()[i as int],
    {
        let e = self.table.entry_at(i);
        (e.0.clone(), e.1.clone())
    }
}

} // verus!
