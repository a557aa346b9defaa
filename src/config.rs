use vstd::prelude::*;
use crate::params::ParamMap;
use crate::table::NameTable;

verus! {

/// Where a script's sources come from.
pub struct ScriptDetails {
    pub repo: String,
    pub branch: Option<String>,
}

/// The branch used when a descriptor names none.
pub open spec fn default_branch() -> Seq<char> {
    "master"@
}

impl ScriptDetails {
    /// The branch to use: the one named, else `master`.
    pub open spec fn branch_spec(&self) -> Seq<char> {
        match self.branch {
            Some(b) => b@,
            None => default_branch(),
        }
    }

    /// The branch to use: the one named, else `master`.
    pub fn branch_or_default(&self) -> (r: String)
        ensures
            r@ == self.branch_spec(),
    {
        match &self.branch {
            Some(b) => b.clone(),
            None => "master".to_owned(),
        }
    }

    /// A copy of this descriptor.
    pub fn duplicate(&self) -> (r: ScriptDetails)
        ensures
            r.repo@ == self.repo@,
            r.branch_spec() == self.branch_spec(),
            r.branch == self.branch,
    {
        ScriptDetails {
            repo: self.repo.clone(),
            branch: match &self.branch {
                Some(b) => Some(b.clone()),
                None => None,
            },
        }
    }
}

/// The repository descriptors of the scripts, by script name.
pub struct ScriptConfig {
    pub scripts: NameTable<ScriptDetails>,
}

impl ScriptConfig {
    pub open spec fn wf(&self) -> bool {
        self.scripts.wf()
    }

    /// A configuration with no descriptors.
    pub fn new() -> (r: ScriptConfig)
        ensures
            r.wf(),
            r.scripts@ == Map::<Seq<char>, ScriptDetails>::empty(),
    {
        ScriptConfig { scripts: NameTable::new() }
    }

    /// Sets the descriptor of `name`.
    pub fn insert(&mut self, name: &str, details: ScriptDetails)
        requires
            old(self).wf(),
        ensures
            final(self).wf(),
            final(self).scripts@ == old(self).scripts@.insert(name@, details),
    {
        self.scripts.insert(name, details);
    }
}

/// Replaces the configuration in use by `config`.
pub fn set_script_config(current: &mut ScriptConfig, config: ScriptConfig)
    ensures
        final(current).scripts@ == config.scripts@,
        final(current).wf() == config.wf(),
{
    *current = config;
}

/// A copy of the descriptor of `script_name`, if one is configured.
pub fn get_script_config(config: &ScriptConfig, script_name: &str) -> (r: Option<ScriptDetails>)
    requires
        config.wf(),
    ensures
        match r {
            Some(d) => config.scripts@.contains_key(script_name@) && d.repo@
                == config.scripts@[script_name@].repo@ && d.branch
                == config.scripts@[script_name@].branch,
            None => !config.scripts@.contains_key(script_name@),
        },
{
    match config.scripts.get(script_name) {
        Some(d) => Some(d.duplicate()),
        None => None,
    }
}

/// Stores `value` under `key` among the run's parameters.
pub fn set_var(vars: &mut ParamMap, key: &str, value: &str)
    requires
        old(vars).wf(),
    ensures
        final(vars).wf(),
        final(vars)@ == old(vars)@.insert(key@, value@),
{
    vars.insert(key, value);
}

/// The run's parameter stored under `key`.
pub fn get_var(vars: &ParamMap, key: &str) -> (r: Option<String>)
    requires
        vars.wf(),
    ensures
        match r {
            Some(v) => vars@.contains_key(key@) && v@ == vars@[key@],
            None => !vars@.contains_key(key@),
        },
{
    vars.get(key)
}

} // verus!
