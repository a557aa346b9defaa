use buildrunner::engine::{Action, Execution};
use buildrunner::error::BuildError;
use buildrunner::params::ParamMap;
use buildrunner::registry::{DependencyEdge, DependencyRegistry, ScriptKind, ScriptRegistry};
use buildrunner::status::StatusStore;

fn edge(name: &str) -> DependencyEdge {
    DependencyEdge { name: name.to_string(), params: ParamMap::new() }
}

fn registry(names: &[&str]) -> ScriptRegistry {
    let mut scripts = ScriptRegistry::new();
    for n in names {
        scripts.register(n, ScriptKind::Test);
    }
    scripts
}

/// Drives an execution to its end; `fail` names the run that fails.
fn drive(exec: &mut Execution, fail: Option<&str>) -> (Vec<String>, Result<(), BuildError>) {
    let mut order = Vec::new();
    loop {
        match exec.next_action() {
            Action::Invoke(i) => {
                let name = exec.invocation(i).name.clone();
                order.push(name.clone());
                if Some(name.as_str()) == fail {
                    exec.report(Err(BuildError::CommandFailed(format!("{} broke", name))));
                } else {
                    exec.report(Ok(()));
                }
            }
            Action::Finish(r) => return (order, r),
        }
    }
}

#[test]
fn single_prerequisite_runs_first() {
    let scripts = registry(&["A", "B"]);
    let mut deps = DependencyRegistry::new();
    deps.declare("A", vec![edge("B")]);
    deps.declare("B", vec![]);
    let mut exec = Execution::start(&deps, &scripts, "A", &ParamMap::new());
    let (order, r) = drive(&mut exec, None);
    assert_eq!(order, vec!["B".to_string(), "A".to_string()]);
    assert_eq!(r, Ok(()));
}

#[test]
fn prerequisite_subtrees_run_in_declared_order() {
    let scripts = registry(&["s", "d1", "d2", "x"]);
    let mut deps = DependencyRegistry::new();
    deps.declare("s", vec![edge("d1"), edge("d2")]);
    deps.declare("d1", vec![edge("x")]);
    let mut exec = Execution::start(&deps, &scripts, "s", &ParamMap::new());
    let (order, r) = drive(&mut exec, None);
    assert_eq!(order, vec!["x", "d1", "d2", "s"]);
    assert_eq!(r, Ok(()));
}

#[test]
fn failing_prerequisite_stops_the_execution() {
    let scripts = registry(&["s", "d1", "d2", "x"]);
    let mut deps = DependencyRegistry::new();
    deps.declare("s", vec![edge("d1"), edge("d2")]);
    deps.declare("d1", vec![edge("x")]);
    let mut exec = Execution::start(&deps, &scripts, "s", &ParamMap::new());
    let (order, r) = drive(&mut exec, Some("x"));
    assert_eq!(order, vec!["x"]);
    assert_eq!(r, Err(BuildError::CommandFailed("x broke".to_string())));
    assert!(matches!(exec.next_action(), Action::Finish(Err(_))));
}

#[test]
fn unknown_prerequisite_ends_after_earlier_runs() {
    let scripts = registry(&["s", "d1"]);
    let mut deps = DependencyRegistry::new();
    deps.declare("s", vec![edge("d1"), edge("nowhere"), edge("d1")]);
    let mut exec = Execution::start(&deps, &scripts, "s", &ParamMap::new());
    let (order, r) = drive(&mut exec, None);
    assert_eq!(order, vec!["d1"]);
    assert_eq!(r, Err(BuildError::UnknownScript("nowhere".to_string())));
}

#[test]
fn unknown_script_runs_nothing() {
    let scripts = registry(&["test"]);
    let deps = DependencyRegistry::new();
    let store = StatusStore::new();
    let mut exec = Execution::start(&deps, &scripts, "ghost", &ParamMap::new());
    let (order, r) = drive(&mut exec, None);
    assert!(order.is_empty());
    assert_eq!(r, Err(BuildError::UnknownScript("ghost".to_string())));
    assert!(store.read_record("ghost").is_none());
}

#[test]
fn shared_prerequisite_runs_each_time() {
    let scripts = registry(&["s", "c", "d"]);
    let mut deps = DependencyRegistry::new();
    deps.declare("s", vec![edge("c"), edge("d")]);
    deps.declare("d", vec![edge("c")]);
    let mut exec = Execution::start(&deps, &scripts, "s", &ParamMap::new());
    let (order, _) = drive(&mut exec, None);
    assert_eq!(order, vec!["c", "c", "d", "s"]);
}

#[test]
fn cycle_is_reported() {
    let scripts = registry(&["a", "b", "leaf"]);
    let mut deps = DependencyRegistry::new();
    deps.declare("a", vec![edge("leaf"), edge("b")]);
    deps.declare("b", vec![edge("a")]);
    let mut exec = Execution::start(&deps, &scripts, "a", &ParamMap::new());
    let (order, r) = drive(&mut exec, None);
    assert_eq!(order, vec!["leaf"]);
    assert_eq!(r, Err(BuildError::CyclicDependency("a".to_string())));
}

#[test]
fn prerequisite_parameters_are_passed() {
    let scripts = registry(&["top", "dep"]);
    let mut deps = DependencyRegistry::new();
    let mut p = ParamMap::new();
    p.insert("k", "v");
    deps.declare("top", vec![DependencyEdge { name: "dep".to_string(), params: p }]);
    let mut top_params = ParamMap::new();
    top_params.insert("t", "1");
    let exec = Execution::start(&deps, &scripts, "top", &top_params);
    assert_eq!(exec.next_action(), Action::Invoke(0));
    let first = exec.invocation(0);
    assert_eq!(first.name, "dep");
    assert_eq!(first.script, ScriptKind::Test);
    assert_eq!(first.params.get("k"), Some("v".to_string()));
    let second = exec.invocation(1);
    assert_eq!(second.name, "top");
    assert_eq!(second.params.get("t"), Some("1".to_string()));
    assert_eq!(second.params.get("k"), None);
}
