use sw_install::validator::detect_project_type;
use sw_install::{FsEntry, InstallConfig, InstallError, ProjectTree, ProjectType, ValidationResult, Validator};

const ROOT: &str = "/work/proj";

fn dir(path: &str) -> FsEntry {
    FsEntry { path: path.to_string(), is_dir: true, modified: Some(10), text: None }
}

fn file(path: &str, modified: u64) -> FsEntry {
    FsEntry { path: path.to_string(), is_dir: false, modified: Some(modified), text: None }
}

fn manifest(path: &str, text: &str) -> FsEntry {
    FsEntry { path: path.to_string(), is_dir: false, modified: Some(10), text: Some(text.to_string()) }
}

fn tree(entries: Vec<FsEntry>) -> ProjectTree {
    ProjectTree { exists: true, is_dir: true, entries }
}

fn validate_with(debug: bool, t: &ProjectTree) -> Result<ValidationResult, InstallError> {
    let config = InstallConfig::new(ROOT.to_string(), None, debug, false, false, None);
    let validator = Validator::new(&config);
    validator.validate(t)
}

fn validate(t: &ProjectTree) -> Result<ValidationResult, InstallError> {
    validate_with(false, t)
}

const TEST_APP: &str = "[package]\nname = \"test-app\"\nversion = \"0.1.0\"\nedition = \"2021\"\n";

fn test_project(include_binary: bool) -> ProjectTree {
    let mut es = vec![manifest("Cargo.toml", TEST_APP)];
    if include_binary {
        es.push(dir("target"));
        es.push(dir("target/release"));
        es.push(file("target/release/test-app", 100));
    }
    tree(es)
}

fn workspace_manifest(members: &str) -> String {
    format!("[workspace]\nresolver = \"2\"\nmembers = {members}\n")
}

fn package_manifest(name: &str, bin: Option<&str>) -> String {
    let bin_section = bin
        .map(|n| format!("\n[[bin]]\nname = \"{n}\"\npath = \"src/main.rs\"\n"))
        .unwrap_or_default();
    format!("[package]\nname = \"{name}\"\nversion = \"0.1.0\"\n{bin_section}")
}

fn lib_crate(es: &mut Vec<FsEntry>, dir_path: &str, name: &str) {
    es.push(dir(dir_path));
    es.push(manifest(&format!("{dir_path}/Cargo.toml"), &package_manifest(name, None)));
    es.push(dir(&format!("{dir_path}/src")));
    es.push(file(&format!("{dir_path}/src/lib.rs"), 10));
}

fn bin_crate(es: &mut Vec<FsEntry>, dir_path: &str, name: &str) {
    es.push(dir(dir_path));
    es.push(manifest(&format!("{dir_path}/Cargo.toml"), &package_manifest(name, Some(name))));
    es.push(dir(&format!("{dir_path}/src")));
    es.push(file(&format!("{dir_path}/src/main.rs"), 10));
}

fn check_project_path_missing() {
    let t = ProjectTree { exists: false, is_dir: false, entries: Vec::new() };
    let config = InstallConfig::new("/nonexistent".to_string(), None, false, false, false, None);
    let result = Validator::new(&config).validate(&t);
    assert!(result.is_err());
    assert!(matches!(result.unwrap_err(), InstallError::ProjectNotFound(p) if p == "/nonexistent"));
}

#[test]
fn validator_test_validate_fails_when_project_path_missing() {
    check_project_path_missing();
}

#[test]
fn validator_tests_test_validate_fails_when_project_path_missing() {
    check_project_path_missing();
}

#[test]
fn validate_fails_when_project_path_is_a_file() {
    let t = ProjectTree { exists: true, is_dir: false, entries: Vec::new() };
    assert!(matches!(validate(&t), Err(InstallError::NotADirectory(p)) if p == ROOT));
}

fn check_cargo_toml_missing() {
    let result = validate(&tree(Vec::new()));
    assert!(result.is_err());
    assert!(matches!(result.unwrap_err(), InstallError::CargoTomlNotFound(_)));
}

#[test]
fn validator_test_validate_fails_when_cargo_toml_missing() {
    check_cargo_toml_missing();
}

#[test]
fn validator_tests_test_validate_fails_when_cargo_toml_missing() {
    check_cargo_toml_missing();
}

fn check_binary_missing() {
    let result = validate(&test_project(false));
    assert!(result.is_err());
    assert!(matches!(result.unwrap_err(), InstallError::BinaryNotFound(_)));
}

#[test]
fn validator_test_validate_fails_when_binary_missing() {
    check_binary_missing();
}

#[test]
fn validator_tests_test_validate_fails_when_binary_missing() {
    check_binary_missing();
}

fn check_valid_project() {
    let result = validate(&test_project(true));
    assert!(result.is_ok());
    assert_eq!(result.unwrap().binary_name, "test-app");
}

#[test]
fn validator_test_validate_succeeds_with_valid_project() {
    check_valid_project();
}

#[test]
fn validator_tests_test_validate_succeeds_with_valid_project() {
    check_valid_project();
}

#[test]
fn valid_project_reports_artifact_path() {
    let r = validate(&test_project(true)).unwrap();
    assert_eq!(r.binary_name, "test-app");
    assert_eq!(r.source_binary_path, "/work/proj/target/release/test-app");
    assert_eq!(r.candidates, vec!["test-app".to_string()]);
}

#[test]
fn missing_artifact_reports_its_path() {
    let r = validate(&test_project(false));
    assert!(matches!(r, Err(InstallError::BinaryNotFound(p)) if p == "/work/proj/target/release/test-app"));
}

#[test]
fn debug_profile_looks_in_debug_dir() {
    let r = validate_with(true, &test_project(true));
    assert!(matches!(r, Err(InstallError::BinaryNotFound(p)) if p == "/work/proj/target/debug/test-app"));
}

#[test]
fn manifest_without_package_or_workspace_is_no_project() {
    let t = tree(vec![manifest("Cargo.toml", "[dependencies]\nserde = \"1\"\n")]);
    assert!(matches!(validate(&t), Err(InstallError::CargoTomlNotFound(p)) if p == ROOT));
}

#[test]
fn malformed_root_manifest_is_no_project() {
    let t = tree(vec![manifest("Cargo.toml", "[package\nname = ")]);
    assert!(matches!(validate(&t), Err(InstallError::CargoTomlNotFound(_))));
}

#[test]
fn package_without_name_has_no_binary_name() {
    let t = tree(vec![manifest("Cargo.toml", "[package]\nversion = \"0.1.0\"\n")]);
    assert!(matches!(validate(&t), Err(InstallError::BinaryNameNotFound)));
}

#[test]
fn test_extract_binary_name_from_package() {
    let t = tree(vec![
        manifest("Cargo.toml", "[package]\nname = \"my-binary\"\nversion = \"0.1.0\"\n"),
        file("target/release/my-binary", 100),
    ]);
    assert_eq!(validate(&t).unwrap().binary_name, "my-binary");
}

#[test]
fn test_extract_binary_name_from_bin_section() {
    let text = "[package]\nname = \"my-package\"\nversion = \"0.1.0\"\n\n[[bin]]\nname = \"my-binary\"\npath = \"src/main.rs\"\n";
    let t = tree(vec![manifest("Cargo.toml", text), file("target/release/my-binary", 100)]);
    assert_eq!(validate(&t).unwrap().binary_name, "my-binary");
}

#[test]
fn first_of_several_targets_is_chosen() {
    let text = "[package]\nname = \"pkg\"\n\n[[bin]]\nname = \"one\"\n\n[[bin]]\nname = \"two\"\n";
    let t = tree(vec![manifest("Cargo.toml", text), file("target/release/one", 100)]);
    let r = validate(&t).unwrap();
    assert_eq!(r.binary_name, "one");
    assert_eq!(r.candidates, vec!["one".to_string()]);
}

#[test]
fn test_extract_binary_name_from_workspace_with_bin_section() {
    let mut es = vec![manifest("Cargo.toml", "[workspace]\nresolver = \"2\"\nmembers = [\"crates/my-cli\"]\n")];
    es.push(dir("crates"));
    es.push(dir("crates/my-cli"));
    es.push(manifest("crates/my-cli/Cargo.toml", &package_manifest("my-cli", Some("my-cli"))));
    es.push(file("target/release/my-cli", 100));
    assert_eq!(validate(&tree(es)).unwrap().binary_name, "my-cli");
}

#[test]
fn test_extract_binary_name_from_workspace_with_main_rs() {
    let mut es = vec![manifest("Cargo.toml", "[workspace]\nresolver = \"2\"\nmembers = [\"crates/my-app\"]\n")];
    es.push(dir("crates"));
    es.push(dir("crates/my-app"));
    es.push(dir("crates/my-app/src"));
    es.push(manifest("crates/my-app/Cargo.toml", "[package]\nname = \"my-app\"\nversion = \"0.1.0\"\n"));
    es.push(file("crates/my-app/src/main.rs", 10));
    es.push(file("target/release/my-app", 100));
    assert_eq!(validate(&tree(es)).unwrap().binary_name, "my-app");
}

fn library_only_workspace() -> ProjectTree {
    let mut es = vec![manifest("Cargo.toml", &workspace_manifest(r#"["crates/my-lib", "crates/my-cli"]"#))];
    es.push(dir("crates"));
    lib_crate(&mut es, "crates/my-lib", "my-lib");
    bin_crate(&mut es, "crates/my-cli", "my-cli");
    es.push(dir("target"));
    es.push(dir("target/release"));
    es.push(file("target/release/my-cli", 100));
    tree(es)
}

fn check_library_only_members() {
    let r = validate(&library_only_workspace()).unwrap();
    assert_eq!(r.binary_name, "my-cli");
    assert_eq!(r.candidates, vec!["my-cli".to_string()]);
}

#[test]
fn validator_test_workspace_with_library_only_members_ignores_libs() {
    check_library_only_members();
}

#[test]
fn validator_tests_test_workspace_with_library_only_members_ignores_libs() {
    check_library_only_members();
}

#[test]
fn library_without_entry_point_is_no_candidate() {
    let mut es = vec![manifest("Cargo.toml", &workspace_manifest(r#"["crates/my-lib"]"#))];
    es.push(dir("crates"));
    lib_crate(&mut es, "crates/my-lib", "my-lib");
    assert!(matches!(validate(&tree(es)), Err(InstallError::BinaryNameNotFound)));
}

fn wildcard_workspace(members: &[&str]) -> ProjectTree {
    let mut es = vec![manifest("Cargo.toml", &workspace_manifest(r#"["crates/*"]"#))];
    es.push(dir("crates"));
    for m in members {
        bin_crate(&mut es, &format!("crates/{m}"), m);
    }
    es.push(file("crates/README.md", 10));
    for m in members {
        es.push(file(&format!("target/release/{m}"), 100));
    }
    tree(es)
}

#[test]
fn wildcard_with_no_subdirectory_gives_no_candidate() {
    assert!(matches!(validate(&wildcard_workspace(&[])), Err(InstallError::BinaryNameNotFound)));
}

#[test]
fn wildcard_with_one_subdirectory() {
    let r = validate(&wildcard_workspace(&["solo"])).unwrap();
    assert_eq!(r.candidates, vec!["solo".to_string()]);
}

#[test]
fn wildcard_with_many_subdirectories_keeps_enumeration_order() {
    let r = validate(&wildcard_workspace(&["zeta", "alpha", "mid"])).unwrap();
    assert_eq!(r.binary_name, "zeta");
    assert_eq!(r.candidates, vec!["zeta".to_string(), "alpha".to_string(), "mid".to_string()]);
}

#[test]
fn broken_member_manifest_contributes_nothing() {
    let mut es = vec![manifest("Cargo.toml", &workspace_manifest(r#"["a", "b"]"#))];
    es.push(dir("a"));
    es.push(manifest("a/Cargo.toml", "[package"));
    bin_crate(&mut es, "b", "bee");
    es.push(file("target/release/bee", 100));
    assert_eq!(validate(&tree(es)).unwrap().candidates, vec!["bee".to_string()]);
}

fn multi_component() -> ProjectTree {
    let mut es = vec![dir("components"), dir("components/my-lib"), dir("components/my-cli")];
    es.push(manifest("components/my-cli/Cargo.toml", &workspace_manifest(r#"["crates/cli"]"#)));
    es.push(dir("components/my-cli/crates"));
    bin_crate(&mut es, "components/my-cli/crates/cli", "my-app");
    es.push(dir("components/my-cli/target"));
    es.push(dir("components/my-cli/target/release"));
    es.push(file("components/my-cli/target/release/my-app", 100));
    tree(es)
}

#[test]
fn validator_test_multi_component_project_detection() {
    let result = validate(&multi_component());
    assert!(result.is_ok());
    assert_eq!(result.unwrap().binary_name, "my-app");
}

#[test]
fn multi_component_artifact_lies_in_component() {
    let t = multi_component();
    let kind = detect_project_type(&t.entries).unwrap();
    assert!(matches!(&kind, ProjectType::MultiComponent { component_path } if component_path == "components/my-cli"));
    assert_eq!(kind.description(), "multi-component");
    let r = validate(&t).unwrap();
    assert_eq!(r.source_binary_path, "/work/proj/components/my-cli/target/release/my-app");
}

#[test]
fn project_type_descriptions() {
    assert_eq!(ProjectType::Simple.description(), "simple package");
    assert_eq!(ProjectType::Workspace.description(), "workspace");
    let kind = detect_project_type(&test_project(false).entries).unwrap();
    assert!(matches!(kind, ProjectType::Simple));
    let kind = detect_project_type(&library_only_workspace().entries).unwrap();
    assert!(matches!(kind, ProjectType::Workspace));
}

fn with_source(t: &mut ProjectTree, path: &str, modified: u64) {
    t.entries.push(file(path, modified));
}

#[test]
fn newer_source_makes_artifact_outdated() {
    let mut t = test_project(true);
    t.entries.push(dir("src"));
    with_source(&mut t, "src/main.rs", 101);
    assert!(matches!(validate(&t), Err(InstallError::BinaryOutdated(p)) if p == "/work/proj/target/release/test-app"));
}

#[test]
fn older_source_keeps_artifact_fresh() {
    let mut t = test_project(true);
    t.entries.push(dir("src"));
    with_source(&mut t, "src/main.rs", 99);
    with_source(&mut t, "src/lib.rs", 100);
    with_source(&mut t, "notes.txt", 500);
    with_source(&mut t, "src/.rs", 500);
    assert!(validate(&t).is_ok());
}

#[test]
fn sources_in_build_output_never_count() {
    let mut t = test_project(true);
    with_source(&mut t, "target/release/build/gen.rs", 999);
    with_source(&mut t, "crates/x/target/out.rs", 999);
    assert!(validate(&t).is_ok());
    with_source(&mut t, "crates/x/targets/out.rs", 999);
    assert!(matches!(validate(&t), Err(InstallError::BinaryOutdated(_))));
}

#[test]
fn unreadable_artifact_time_counts_as_epoch() {
    let mut t = test_project(false);
    t.entries.push(FsEntry { path: "target/release/test-app".to_string(), is_dir: false, modified: None, text: None });
    assert!(validate(&t).is_ok());
    with_source(&mut t, "build.rs", 1);
    assert!(matches!(validate(&t), Err(InstallError::BinaryOutdated(_))));
}

#[test]
fn multi_component_freshness_looks_at_component_only() {
    let mut t = multi_component();
    with_source(&mut t, "components/my-lib/src/lib.rs", 999);
    assert!(validate(&t).is_ok());
    with_source(&mut t, "components/my-cli/crates/cli/src/extra.rs", 999);
    assert!(matches!(validate(&t), Err(InstallError::BinaryOutdated(_))));
}

#[test]
fn resolving_twice_gives_the_same_outcome() {
    let t = library_only_workspace();
    let a = validate(&t).unwrap();
    let b = validate(&t).unwrap();
    assert_eq!(a.binary_name, b.binary_name);
    assert_eq!(a.source_binary_path, b.source_binary_path);
    assert_eq!(a.candidates, b.candidates);
}

fn workspace_with_members(members: &str) -> ProjectTree {
    let mut es = vec![manifest("Cargo.toml", &workspace_manifest(members))];
    es.push(dir("crates"));
    bin_crate(&mut es, "crates/a", "app-a");
    es.push(file("target/release/app-a", 100));
    tree(es)
}

#[test]
fn member_paths_are_taken_in_normal_form() {
    for members in [
        r#"["crates/a/"]"#,
        r#"["./crates/a"]"#,
        r#"["crates//a"]"#,
        r#"["crates/b/../a"]"#,
        r#"["./crates/./a/"]"#,
    ] {
        let r = validate(&workspace_with_members(members)).unwrap();
        assert_eq!(r.candidates, vec!["app-a".to_string()], "members {members}");
    }
}

#[test]
fn member_path_leaving_the_project_is_no_candidate() {
    let r = validate(&workspace_with_members(r#"["../crates/a"]"#));
    assert!(matches!(r, Err(InstallError::BinaryNameNotFound)));
}

#[test]
fn workspace_root_package_as_member() {
    let text = "[workspace]\nmembers = [\".\"]\n\n[package]\nname = \"rooted\"\n";
    let t = tree(vec![
        manifest("Cargo.toml", text),
        dir("src"),
        file("src/main.rs", 10),
        file("target/release/rooted", 100),
    ]);
    assert_eq!(validate(&t).unwrap().binary_name, "rooted");
}

#[test]
fn wildcard_base_in_normal_form() {
    let mut es = vec![manifest("Cargo.toml", &workspace_manifest(r#"["./crates/*"]"#))];
    es.push(dir("crates"));
    bin_crate(&mut es, "crates/one", "one");
    es.push(file("target/release/one", 100));
    assert_eq!(validate(&tree(es)).unwrap().candidates, vec!["one".to_string()]);
}

#[test]
fn unreadable_manifest_gives_manifest_error() {
    let config = InstallConfig::new(ROOT.to_string(), None, false, false, false, None);
    let v = Validator::new(&config);
    let broken = tree(vec![manifest("Cargo.toml", "[workspace\nmembers = ")]);
    let r = v.extract_binary_name_for_type(&broken, &ProjectType::Workspace);
    assert!(matches!(r, Err(InstallError::CargoTomlParse(p)) if p == "/work/proj/Cargo.toml"));
    let missing = tree(Vec::new());
    let r = v.extract_binary_name_for_type(&missing, &ProjectType::Simple);
    assert!(matches!(r, Err(InstallError::CargoTomlParse(_))));
    let unread = tree(vec![FsEntry { path: "components/c/Cargo.toml".to_string(), is_dir: false, modified: None, text: None }]);
    let kind = ProjectType::MultiComponent { component_path: "components/c".to_string() };
    let r = v.extract_binary_name_for_type(&unread, &kind);
    assert!(matches!(r, Err(InstallError::CargoTomlParse(p)) if p == "/work/proj/components/c/Cargo.toml"));
}

#[test]
fn parsed_manifest_without_candidate_gives_missing_name() {
    let config = InstallConfig::new(ROOT.to_string(), None, false, false, false, None);
    let t = tree(vec![manifest("Cargo.toml", "[workspace]\nmembers = []\n")]);
    let r = Validator::new(&config).extract_binary_name_for_type(&t, &ProjectType::Workspace);
    assert!(matches!(r, Err(InstallError::BinaryNameNotFound)));
}
