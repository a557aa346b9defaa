use vstd::prelude::*;
use crate::params::ParamMap;
use crate::table::NameTable;

verus! {

/// The build scripts this program knows how to run.
#[derive(Clone, Copy, PartialEq, Eq, Structural, Debug)]
pub enum ScriptKind {
    Test,
    Test2,
    Test3,
}

/// Maps a script name to the script it runs.
pub struct ScriptRegistry {
    table: NameTable<ScriptKind>,
}

impl View for ScriptRegistry {
    type V = Map<Seq<char>, ScriptKind>;

    closed spec fn view(&self) -> Map<Seq<char>, ScriptKind> {
        self.table@
    }
}

impl ScriptRegistry {
    pub closed spec fn wf(&self) -> bool {
        self.table.wf()
    }

    /// An empty registry.
    pub fn new() -> (r: ScriptRegistry)
        ensures
            r.wf(),
            r@ == Map::<Seq<char>, ScriptKind>::empty(),
    {
        ScriptRegistry { table: NameTable::new() }
    }

    /// Registers `script` under `name`; a later registration of a name wins.
    pub fn register(&mut self, name: &str, script: ScriptKind)
        requires
            old(self).wf(),
        ensures
            final(self).wf(),
            final(self)@ == old(self)@.insert(name@, script),
    {
        self.table.insert(name, script);
    }

    /// The registered names, each once.
    pub fn names(&self) -> (r: Vec<String>)
        requires
            self.wf(),
        ensures
            r@.map_values(|s: String| s@).to_set() == self@.dom(),
            r@.len() == self@.len(),
    {
        let mut r: Vec<String> = Vec::new();
        let n = self.table.len();
        proof {
            self.table.lemma_names();
        }
        let mut i: usize = 0;
        while i < n
            invariant
                self.wf(),
                n == self.table.names().len(),
                0 <= i <= n,
                r@.map_values(|s: String| s@) == self.table.names().subrange(0, i as int),
            decreases n - i,
        {
            let ghost before = r@;
            let name = self.table.name_at(i).clone();
            r.push(name);
            assert(r@.map_values(|s: String| s@) =~= before.map_values(|s: String| s@).push(
                self.table.names()[i as int],
            ));
            assert(r@.map_values(|s: String| s@) =~= self.table.names().subrange(0, i + 1));
            i = i + 1;
        }
        assert(self.table.names().subrange(0, n as int) =~= self.table.names());
        r
    }

    /// The script registered under `name`.
    pub fn lookup(&self, name: &str) -> (r: Option<ScriptKind>)
        requires
            self.wf(),
        ensures
            r == (if self@.contains_key(name@) { Some(self@[name@]) } else { None }),
    {
        match self.table.get(name) {
            Some(k) => Some(*k),
            None => None,
        }
    }
}

/// A prerequisite of a script: the script to run first and the parameters
/// to run it with.
pub struct DependencyEdge {
    pub name: String,
    pub params: ParamMap,
}

/// Maps a script name to the prerequisites it declares, in order.
pub struct DependencyRegistry {
    table: NameTable<Vec<DependencyEdge>>,
}

impl View for DependencyRegistry {
    type V = Map<Seq<char>, Seq<DependencyEdge>>;

    closed spec fn view(&self) -> Map<Seq<char>, Seq<DependencyEdge>> {
        self.table@.map_values(|v: Vec<DependencyEdge>| v@)
    }
}

impl DependencyRegistry {
    pub closed spec fn wf(&self) -> bool {
        self.table.wf()
    }

    /// An empty registry.
    pub fn new() -> (r: DependencyRegistry)
        ensures
            r.wf(),
            r@ == Map::<Seq<char>, Seq<DependencyEdge>>::empty(),
    {
        let r = DependencyRegistry { table: NameTable::new() };
        assert(r@ =~= Map::<Seq<char>, Seq<DependencyEdge>>::empty());
        r
    }

    /// Declares the prerequisites of `name`, replacing earlier ones.
    pub fn declare(&mut self, name: &str, edges: Vec<DependencyEdge>)
        requires
            old(self).wf(),
        ensures
            final(self).wf(),
            final(self)@ == old(self)@.insert(name@, edges@),
    {
        self.table.insert(name, edges);
        assert(self@ =~= old(self)@.insert(name@, edges@));
    }

    /// The number of names that declare prerequisites.
    pub fn len(&self) -> (n: usize)
        requires
            self.wf(),
        ensures
            n == self@.dom().len(),
    {
        assert(self@.dom() =~= self.table@.dom());
        self.table.len()
    }

    /// The prerequisites declared by `name`; none for an undeclared name.
    pub fn lookup(&self, name: &str) -> (r: Option<&Vec<DependencyEdge>>)
        requires
            self.wf(),
        ensures
            match r {
                Some(v) => self@.contains_key(name@) && v@ == self@[name@],
                None => !self@.contains_key(name@),
            },
    {
        self.table.get(name)
    }
}

} // verus!
