use vstd::prelude::*;
use crate::params::ParamMap;
use crate::table::NameTable;

verus! {

/// What one script's runs have produced, visible to every other script.
pub struct BuildRecord {
    /// Last version string seen for the script.
    pub version: Option<String>,
    /// Parameters accumulated over the script's runs.
    pub extra_parameters: ParamMap,
    /// Where the script's source tree was put.
    pub source_directory: Option<String>,
}

/// The abstract value of a `BuildRecord`.
pub struct BuildRecordView {
    pub version: Option<Seq<char>>,
    pub extra_parameters: Map<Seq<char>, Seq<char>>,
    pub source_directory: Option<Seq<char>>,
}

pub open spec fn opt_string_view(s: Option<String>) -> Option<Seq<char>> {
    match s {
        Some(x) => Some(x@),
        None => None,
    }
}

fn duplicate_opt_string(s: &Option<String>) -> (r: Option<String>)
    ensures
        opt_string_view(r) == opt_string_view(*s),
{
    match s {
        Some(x) => Some(x.clone()),
        None => None,
    }
}

impl View for BuildRecord {
    type V = BuildRecordView;

    open spec fn view(&self) -> BuildRecordView {
        BuildRecordView {
            version: opt_string_view(self.version),
            extra_parameters: self.extra_parameters@,
            source_directory: opt_string_view(self.source_directory),
        }
    }
}

/// The record of a script that nothing has written yet.
pub open spec fn empty_record() -> BuildRecordView {
    BuildRecordView {
        version: None,
        extra_parameters: Map::empty(),
        source_directory: None,
    }
}

impl BuildRecord {
    pub open spec fn wf(&self) -> bool {
        self.extra_parameters.wf()
    }

    /// A record with no version, no parameters and no source directory.
    pub fn new() -> (r: BuildRecord)
        ensures
            r.wf(),
            r@ == empty_record(),
    {
        BuildRecord { version: None, extra_parameters: ParamMap::new(), source_directory: None }
    }

    /// A copy of this record.
    pub fn duplicate(&self) -> (r: BuildRecord)
        ensures
            r@ == self@,
            r.wf() == self.wf(),
    {
        BuildRecord {
            version: duplicate_opt_string(&self.version),
            extra_parameters: self.extra_parameters.duplicate(),
            source_directory: duplicate_opt_string(&self.source_directory),
        }
    }
}

impl Default for BuildRecord {
    fn default() -> (r: BuildRecord)
        ensures
            r.wf(),
            r@ == empty_record(),
    {
        BuildRecord::new()
    }
}

/// The shared store of build records, one per script name. A record is
/// created empty on first access and never removed.
pub struct StatusStore {
    table: NameTable<BuildRecord>,
}

impl View for StatusStore {
    type V = Map<Seq<char>, BuildRecordView>;

    closed spec fn view(&self) -> Map<Seq<char>, BuildRecordView> {
        self.table@.map_values(|r: BuildRecord| r@)
    }
}

impl StatusStore {
    pub closed spec fn wf(&self) -> bool {
        &&& self.table.wf()
        &&& forall|k: Seq<char>| #[trigger] self.table@.contains_key(k) ==> self.table@[k].wf()
    }

    /// The record that a script of this name sees: the stored one, or an
    /// empty one.
    pub open spec fn record(&self, name: Seq<char>) -> BuildRecordView {
        if self@.contains_key(name) {
            self@[name]
        } else {
            empty_record()
        }
    }

    /// A store with no records.
    pub fn new() -> (r: StatusStore)
        ensures
            r.wf(),
            r@ == Map::<Seq<char>, BuildRecordView>::empty(),
    {
        let r = StatusStore { table: NameTable::new() };
        assert(r@ =~= Map::<Seq<char>, BuildRecordView>::empty());
        r
    }

    /// Runs `f` on the record of `name`, created empty if there is none yet,
    /// and stores what `f` returns as that record.
    pub fn with_record<F: FnOnce(BuildRecord) -> BuildRecord>(&mut self, name: &str, f: F)
        requires
            old(self).wf(),
            forall|r: BuildRecord| r.wf() ==> f.requires((r,)),
            forall|r: BuildRecord, out: BuildRecord| r.wf() && #[trigger] f.ensures((r,), out) ==> out.wf(),
        ensures
            final(self).wf(),
            exists|before: BuildRecord, after: BuildRecord|
                #![trigger f.ensures((before,), after)]
                before.wf() && before@ == old(self).record(name@) && f.ensures((before,), after)
                    && final(self)@ == old(self)@.insert(name@, after@),
    {
        let ghost t0 = self.table@;
        let before = match self.table.take(name) {
            Some(r) => r,
            None => BuildRecord::new(),
        };
        let ghost b = before;
        assert(before.wf());
        let after = f(before);
        self.table.insert(name, after);
        assert(self.table@ == t0.remove(name@).insert(name@, after));
        assert(self@ =~= old(self)@.insert(name@, after@));
        assert(b@ == old(self).record(name@));
    }

    /// A copy of the record of `name`, if one was ever created.
    pub fn read_record(&self, name: &str) -> (r: Option<BuildRecord>)
        requires
            self.wf(),
        ensures
            match r {
                Some(x) => self@.contains_key(name@) && x@ == self@[name@] && x.wf(),
                None => !self@.contains_key(name@),
            },
    {
        match self.table.get(name) {
            Some(x) => Some(x.duplicate()),
            None => None,
        }
    }
}

} // verus!
