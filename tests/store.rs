use buildrunner::config::{get_script_config, get_var, set_script_config, set_var, ScriptConfig, ScriptDetails};
use buildrunner::error::BuildError;
use buildrunner::params::ParamMap;
use buildrunner::scripts::{get_dependencies, get_dependency_functions, get_scripts, prepare_checkout, target_directory};
use buildrunner::registry::ScriptKind;
use buildrunner::status::{BuildRecord, StatusStore};

#[test]
fn untouched_record_is_empty() {
    let mut store = StatusStore::new();
    let mut seen_version = Some("x".to_string());
    let mut seen_len = 99;
    let mut seen_dir = Some("x".to_string());
    store.with_record("fresh", |r: BuildRecord| {
        seen_version = r.version.clone();
        seen_len = r.extra_parameters.len();
        seen_dir = r.source_directory.clone();
        r
    });
    assert_eq!(seen_version, None);
    assert_eq!(seen_len, 0);
    assert_eq!(seen_dir, None);
    assert!(store.read_record("fresh").is_some());
}

#[test]
fn record_writes_are_visible() {
    let mut store = StatusStore::new();
    store.with_record("a", |mut r: BuildRecord| {
        r.version = Some("1.2".to_string());
        r.extra_parameters.insert("k", "v");
        r
    });
    store.with_record("a", |mut r: BuildRecord| {
        r.source_directory = Some("dir".to_string());
        r
    });
    let rec = store.read_record("a").unwrap();
    assert_eq!(rec.version, Some("1.2".to_string()));
    assert_eq!(rec.extra_parameters.get("k"), Some("v".to_string()));
    assert_eq!(rec.source_directory, Some("dir".to_string()));
    assert!(store.read_record("b").is_none());
}

#[test]
fn params_insert_replaces() {
    let mut p = ParamMap::new();
    p.insert("a", "1");
    p.insert("b", "2");
    p.insert("a", "3");
    assert_eq!(p.len(), 2);
    assert_eq!(p.get("a"), Some("3".to_string()));
    assert_eq!(p.get("c"), None);
    let mut q = ParamMap::new();
    q.insert("b", "20");
    q.insert("c", "30");
    p.insert_all(&q);
    assert_eq!(p.len(), 3);
    assert_eq!(p.get("a"), Some("3".to_string()));
    assert_eq!(p.get("b"), Some("20".to_string()));
    assert_eq!(p.get("c"), Some("30".to_string()));
}

#[test]
fn vars_round_trip() {
    let mut vars = ParamMap::new();
    assert_eq!(get_var(&vars, "version"), None);
    set_var(&mut vars, "version", "2.0");
    assert_eq!(get_var(&vars, "version"), Some("2.0".to_string()));
}

#[test]
fn script_catalogue() {
    let scripts = get_scripts();
    assert_eq!(scripts.lookup("test"), Some(ScriptKind::Test));
    assert_eq!(scripts.lookup("test2"), Some(ScriptKind::Test2));
    assert_eq!(scripts.lookup("test3"), Some(ScriptKind::Test3));
    assert_eq!(scripts.lookup("test4"), None);
    let deps = get_dependencies();
    assert_eq!(deps.len(), 2);
    assert_eq!(deps[0].name, "test");
    assert_eq!(deps[0].params.get("param1"), Some("value1".to_string()));
    assert_eq!(deps[1].name, "test2");
    assert_eq!(deps[1].params.get("paramA"), Some("valueA".to_string()));
    let registry = get_dependency_functions();
    assert_eq!(registry.len(), 1);
    assert_eq!(registry.lookup("test3").map(|e| e.len()), Some(2));
    assert!(registry.lookup("test").is_none());
}

#[test]
fn target_directory_layout() {
    assert_eq!(target_directory("test", "1.0", "dev"), "sourcepackage/test_1.0_dev");
}

#[test]
fn config_lookup_and_default_branch() {
    let mut config = ScriptConfig::new();
    config.insert("test", ScriptDetails { repo: "https://example/repo.git".to_string(), branch: None });
    let mut current = ScriptConfig::new();
    set_script_config(&mut current, config);
    let d = get_script_config(&current, "test").unwrap();
    assert_eq!(d.repo, "https://example/repo.git");
    assert_eq!(d.branch_or_default(), "master");
    assert!(get_script_config(&current, "other").is_none());
    let named = ScriptDetails { repo: String::new(), branch: Some("dev".to_string()) };
    assert_eq!(named.branch_or_default(), "dev");
}

#[test]
fn checkout_is_prepared_and_recorded() {
    let mut store = StatusStore::new();
    let mut vars = ParamMap::new();
    vars.insert("version", "3.1");
    let mut config = ScriptConfig::new();
    config.insert("test", ScriptDetails { repo: "https://example/repo.git".to_string(), branch: Some("dev".to_string()) });
    let mut extra = ParamMap::new();
    extra.insert("param1", "value1");
    let c = prepare_checkout(&mut store, &vars, &config, "test", &extra).unwrap();
    assert_eq!(c.repo, "https://example/repo.git");
    assert_eq!(c.branch, "dev");
    assert_eq!(c.target_dir, "sourcepackage/test_3.1_dev");
    let rec = store.read_record("test").unwrap();
    assert_eq!(rec.version, Some("3.1".to_string()));
    assert_eq!(rec.extra_parameters.get("param1"), Some("value1".to_string()));
    assert_eq!(rec.source_directory, Some("sourcepackage/test_3.1_dev".to_string()));
}

#[test]
fn checkout_without_configuration_fails() {
    let mut store = StatusStore::new();
    let vars = ParamMap::new();
    let config = ScriptConfig::new();
    let extra = ParamMap::new();
    let r = prepare_checkout(&mut store, &vars, &config, "test", &extra);
    assert!(matches!(r, Err(BuildError::ConfigurationMissing(ref n)) if n == "test"));
    let rec = store.read_record("test").unwrap();
    assert_eq!(rec.version, Some("Not provided".to_string()));
    assert_eq!(rec.source_directory, None);
}

#[test]
fn registry_names_and_last_registration_wins() {
    let mut scripts = get_scripts();
    let mut names = scripts.names();
    names.sort();
    assert_eq!(names, vec!["test", "test2", "test3"]);
    scripts.register("test", ScriptKind::Test3);
    assert_eq!(scripts.lookup("test"), Some(ScriptKind::Test3));
    assert_eq!(scripts.names().len(), 3);
}
