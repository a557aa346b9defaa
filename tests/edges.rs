use buildrunner::acquire::{AcquireStep, DefaultClone};
use buildrunner::args::parse_arg;
use buildrunner::command::command_outcome;
use buildrunner::error::BuildError;

#[test]
fn acquire_twice_without_pull_reuses() {
    let c = DefaultClone;
    for _ in 0..2 {
        let step = c.step(true, false);
        assert_eq!(step, AcquireStep::Reuse);
        assert_eq!(c.conclude(step, "/tmp/out", Ok(false)), Ok("/tmp/out".to_string()));
    }
}

#[test]
fn acquire_fresh_checkout() {
    let c = DefaultClone;
    let step = c.step(false, true);
    assert_eq!(step, AcquireStep::Clone);
    assert_eq!(c.conclude(step, "/tmp/out", Ok(true)), Ok("/tmp/out".to_string()));
}

#[test]
fn acquire_update_existing() {
    let c = DefaultClone;
    let step = c.step(true, true);
    assert_eq!(step, AcquireStep::Pull);
    assert_eq!(c.conclude(step, "/tmp/out", Ok(true)), Ok("/tmp/out".to_string()));
}

#[test]
fn acquire_failures() {
    let c = DefaultClone;
    assert_eq!(
        c.conclude(AcquireStep::Clone, "/tmp/out", Ok(false)),
        Err(BuildError::CloneFailed("Failed to clone repository".to_string()))
    );
    assert_eq!(
        c.conclude(AcquireStep::Pull, "/tmp/out", Ok(false)),
        Err(BuildError::UpdateFailed("Failed to pull the repository".to_string()))
    );
    assert_eq!(
        c.conclude(AcquireStep::Clone, "/tmp/out", Err("no git".to_string())),
        Err(BuildError::CloneFailed("no git".to_string()))
    );
}

#[test]
fn command_exit_status_decides() {
    assert_eq!(command_outcome(Ok(true), ""), Ok(()));
    assert_eq!(
        command_outcome(Ok(false), "boom"),
        Err(BuildError::CommandFailed("Command execution failed: boom".to_string()))
    );
    assert_eq!(
        command_outcome(Err("not found".to_string()), ""),
        Err(BuildError::CommandFailed("Command execution failed: not found".to_string()))
    );
}

#[test]
fn parse_arg_splits_at_first_separator() {
    assert_eq!(parse_arg("version==1.0"), Some(("version".to_string(), "1.0".to_string())));
    assert_eq!(parse_arg("a==b==c"), Some(("a".to_string(), "b==c".to_string())));
    assert_eq!(parse_arg("==x"), Some((String::new(), "x".to_string())));
    assert_eq!(parse_arg("k=="), Some(("k".to_string(), String::new())));
    assert_eq!(parse_arg("k=v"), None);
    assert_eq!(parse_arg(""), None);
}

#[test]
fn error_messages() {
    assert_eq!(BuildError::UnknownScript("ghost".to_string()).message(), "Unknown script: ghost");
    assert_eq!(
        BuildError::ConfigurationMissing("test".to_string()).message(),
        "Script configuration not found: test"
    );
    assert_eq!(BuildError::CyclicDependency("a".to_string()).message(), "Cyclic dependency: a");
    assert_eq!(BuildError::CommandFailed("x".to_string()).message(), "x");
}

#[test]
fn menu_lists_sorted_and_selects_by_position() {
    let mut scripts = buildrunner::registry::ScriptRegistry::new();
    scripts.register("zeta", buildrunner::registry::ScriptKind::Test);
    scripts.register("alpha", buildrunner::registry::ScriptKind::Test2);
    scripts.register("al", buildrunner::registry::ScriptKind::Test3);
    scripts.register("beta", buildrunner::registry::ScriptKind::Test);
    let names = buildrunner::menu::sorted_names(&scripts);
    assert_eq!(names, vec!["al", "alpha", "beta", "zeta"]);
    assert_eq!(buildrunner::menu::select_script(&names, 1), Ok("al".to_string()));
    assert_eq!(buildrunner::menu::select_script(&names, 4), Ok("zeta".to_string()));
    assert_eq!(
        buildrunner::menu::select_script(&names, 0),
        Err(buildrunner::menu::MenuError::InvalidSelection)
    );
    assert_eq!(
        buildrunner::menu::select_script(&names, 5),
        Err(buildrunner::menu::MenuError::InvalidSelection)
    );
}
