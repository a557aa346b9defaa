use vstd::prelude::*;
use crate::config::{ScriptConfig, get_script_config, get_var};
use crate::error::BuildError;
use crate::params::ParamMap;
use crate::registry::{DependencyEdge, DependencyRegistry, ScriptKind, ScriptRegistry};
use crate::status::{BuildRecord, BuildRecordView, StatusStore, opt_string_view};

verus! {

/// The scripts this program runs, by name.
pub open spec fn known_scripts() -> Map<Seq<char>, ScriptKind> {
    Map::empty().insert("test"@, ScriptKind::Test).insert("test2"@, ScriptKind::Test2).insert(
        "test3"@,
        ScriptKind::Test3,
    )
}

/// The registry of the scripts this program runs.
pub fn get_scripts() -> (r: ScriptRegistry)
    ensures
        r.wf(),
        r@ == known_scripts(),
{
    let mut scripts = ScriptRegistry::new();
    scripts.register("test", ScriptKind::Test);
    scripts.register("test2", ScriptKind::Test2);
    scripts.register("test3", ScriptKind::Test3);
    scripts
}

/// `edges` are the prerequisites of `test3`: `test` with `param1=value1`,
/// then `test2` with `paramA=valueA`.
pub open spec fn test3_prerequisites(edges: Seq<DependencyEdge>) -> bool {
    &&& edges.len() == 2
    &&& edges[0].name@ == "test"@
    &&& edges[0].params.wf()
    &&& edges[0].params@ == Map::<Seq<char>, Seq<char>>::empty().insert("param1"@, "value1"@)
    &&& edges[1].name@ == "test2"@
    &&& edges[1].params.wf()
    &&& edges[1].params@ == Map::<Seq<char>, Seq<char>>::empty().insert("paramA"@, "valueA"@)
}

fn single_param(key: &str, value: &str) -> (r: ParamMap)
    ensures
        r.wf(),
        r@ == Map::<Seq<char>, Seq<char>>::empty().insert(key@, value@),
{
    let mut params = ParamMap::new();
    params.insert(key, value);
    params
}

/// The prerequisites of `test3`, in the order they run.
pub fn get_dependencies() -> (r: Vec<DependencyEdge>)
    ensures
        test3_prerequisites(r@),
{
    let mut dependencies: Vec<DependencyEdge> = Vec::new();
    dependencies.push(DependencyEdge { name: "test".to_owned(), params: single_param("param1", "value1") });
    dependencies.push(DependencyEdge { name: "test2".to_owned(), params: single_param("paramA", "valueA") });
    dependencies
}

/// The registry of declared prerequisites: only `test3` declares any.
pub fn get_dependency_functions() -> (r: DependencyRegistry)
    ensures
        r.wf(),
        r@.dom() == Set::<Seq<char>>::empty().insert("test3"@),
        test3_prerequisites(r@["test3"@]),
{
    let mut dependencies = DependencyRegistry::new();
    dependencies.declare("test3", get_dependencies());
    assert(dependencies@.dom() =~= Set::<Seq<char>>::empty().insert("test3"@));
    dependencies
}

/// Where a script's sources go: `sourcepackage/<name>_<version>_<branch>`.
pub open spec fn target_dir_spec(name: Seq<char>, version: Seq<char>, branch: Seq<char>) -> Seq<char> {
    "sourcepackage/"@ + name + "_"@ + version + "_"@ + branch
}

/// Where a script's sources go: `sourcepackage/<name>_<version>_<branch>`.
pub fn target_directory(name: &str, version: &str, branch: &str) -> (r: String)
    ensures
        r@ == target_dir_spec(name@, version@, branch@),
{
    let mut dir = "sourcepackage/".to_owned();
    dir.append(name);
    dir.append("_");
    dir.append(version);
    dir.append("_");
    dir.append(branch);
    dir
}

/// The version a run uses: the `version` parameter, else `Not provided`.
pub open spec fn version_in_use(vars: Map<Seq<char>, Seq<char>>) -> Seq<char> {
    if vars.contains_key("version"@) {
        vars["version"@]
    } else {
        "Not provided"@
    }
}

/// The sources a script is to build from: a repository, the branch asked
/// for, and the directory to put them in.
pub struct Checkout {
    pub repo: String,
    pub branch: String,
    pub target_dir: String,
}

/// The record a checkout step leaves: the version in use, the parameters
/// seen so far and those of this run, and the source directory if one was
/// decided.
pub open spec fn checkout_record(
    before: BuildRecordView,
    version: Seq<char>,
    extra: Map<Seq<char>, Seq<char>>,
    dir: Option<Seq<char>>,
) -> BuildRecordView {
    BuildRecordView {
        version: Some(version),
        extra_parameters: before.extra_parameters.union_prefer_right(extra),
        source_directory: match dir {
            Some(d) => Some(d),
            None => before.source_directory,
        },
    }
}

/// Prepares a script's checkout: records its parameters and the version in
/// use, looks its repository up and decides, and records, where the sources
/// go. Without a configured repository it fails, with the parameters and
/// version still recorded.
pub fn prepare_checkout(
    store: &mut StatusStore,
    vars: &ParamMap,
    config: &ScriptConfig,
    script_name: &str,
    extra: &ParamMap,
) -> (r: Result<Checkout, BuildError>)
    requires
        old(store).wf(),
        vars.wf(),
        config.wf(),
        extra.wf(),
    ensures
        final(store).wf(),
        config.scripts@.contains_key(script_name@) ==> {
            let d = config.scripts@[script_name@];
            let dir = target_dir_spec(script_name@, version_in_use(vars@), d.branch_spec());
            &&& r matches Ok(c)
            &&& c.repo@ == d.repo@
            &&& c.branch@ == d.branch_spec()
            &&& c.target_dir@ == dir
            &&& final(store)@ == old(store)@.insert(
                script_name@,
                checkout_record(old(store).record(script_name@), version_in_use(vars@), extra@, Some(dir)),
            )
        },
        !config.scripts@.contains_key(script_name@) ==> {
            &&& r matches Err(BuildError::ConfigurationMissing(n))
            &&& n@ == script_name@
            &&& final(store)@ == old(store)@.insert(
                script_name@,
                checkout_record(old(store).record(script_name@), version_in_use(vars@), extra@, None),
            )
        },
{
    let version = match get_var(vars, "version") {
        Some(v) => v,
        None => "Not provided".to_owned(),
    };
    let details = get_script_config(config, script_name);
    let checkout: Option<Checkout> = match &details {
        Some(d) => {
            let branch = d.branch_or_default();
            let target_dir = target_directory(script_name, version.as_str(), branch.as_str());
            Some(Checkout { repo: d.repo.clone(), branch, target_dir })
        },
        None => None,
    };
    let dir: Option<String> = match &checkout {
        Some(c) => Some(c.target_dir.clone()),
        None => None,
    };
    let ghost dir_view = opt_string_view(dir);
    let ghost version_view = version@;
    let ghost extra_view = extra@;
    let params = extra.duplicate();
    let recorded_version = version.clone();
    let update = move |rec: BuildRecord| -> (out: BuildRecord)
        requires
            rec.wf(),
            params.wf(),
        ensures
            out.wf(),
            out@ == checkout_record(rec@, version_view, extra_view, dir_view),
        {
            let mut rec = rec;
            rec.extra_parameters.insert_all(&params);
            rec.version = Some(recorded_version);
            match dir {
                Some(d) => {
                    rec.source_directory = Some(d);
                },
                None => {},
            }
            rec
        };
    store.with_record(script_name, update);
    match checkout {
        Some(c) => Ok(c),
        None => Err(BuildError::ConfigurationMissing(script_name.to_owned())),
    }
}

} // verus!
