use sw_install::InstallError;

fn check_project_not_found() {
    let error = InstallError::ProjectNotFound("/foo/bar".to_string());
    assert_eq!(error.message(), "Project path does not exist: /foo/bar");
}

#[test]
fn error_test_error_display_project_not_found() {
    check_project_not_found();
}

#[test]
fn error_tests_test_error_display_project_not_found() {
    check_project_not_found();
}

fn check_cargo_toml_not_found() {
    let error = InstallError::CargoTomlNotFound("/foo/bar".to_string());
    assert_eq!(error.message(), "Cargo.toml not found in project: /foo/bar");
}

#[test]
fn error_test_error_display_cargo_toml_not_found() {
    check_cargo_toml_not_found();
}

#[test]
fn error_tests_test_error_display_cargo_toml_not_found() {
    check_cargo_toml_not_found();
}

fn check_binary_not_found() {
    let error = InstallError::BinaryNotFound("/foo/bar/target/release/app".to_string());
    let message = error.message();
    assert!(message.contains("Source binary not found"));
    assert!(message.contains("/foo/bar/target/release/app"));
    assert!(message.contains("cargo build --release"));
}

#[test]
fn error_test_error_display_binary_not_found() {
    check_binary_not_found();
}

#[test]
fn error_tests_test_error_display_binary_not_found() {
    check_binary_not_found();
}

fn check_home_not_found() {
    let error = InstallError::HomeNotFound;
    assert_eq!(error.message(), "Home directory not found");
}

#[test]
fn error_test_error_display_home_not_found() {
    check_home_not_found();
}

#[test]
fn error_tests_test_error_display_home_not_found() {
    check_home_not_found();
}

fn check_from_io_error() {
    let io_error = std::io::Error::new(std::io::ErrorKind::NotFound, "file not found");
    let error: InstallError = io_error.into();
    assert!(error.message().contains("IO error"));
    assert_eq!(error.message(), "IO error: file not found");
}

#[test]
fn error_test_error_from_io_error() {
    check_from_io_error();
}

#[test]
fn error_tests_test_error_from_io_error() {
    check_from_io_error();
}

fn check_no_operation_specified() {
    let error = InstallError::NoOperationSpecified;
    let message = error.message();
    assert!(message.contains("--project"), "Error should mention --project");
    assert!(message.contains("--uninstall"), "Error should mention --uninstall");
    assert!(message.contains("--list"), "Error should mention --list");
    assert!(message.contains("--setup-install-dir"), "Error should mention --setup-install-dir");
}

#[test]
fn error_test_error_no_operation_specified_mentions_all_operations() {
    check_no_operation_specified();
}

#[test]
fn error_tests_test_error_no_operation_specified_mentions_all_operations() {
    check_no_operation_specified();
}

#[test]
fn outdated_binary_message() {
    let error = InstallError::BinaryOutdated("/p/target/release/app".to_string());
    assert_eq!(
        error.message(),
        "Binary is older than source files: /p/target/release/app\nHint: Run 'cargo build --release' in the project directory"
    );
}

#[test]
fn install_dir_not_found_message() {
    let error = InstallError::InstallDirNotFound("/h/bin".to_string());
    assert!(error.message().starts_with("Installation directory does not exist: /h/bin\n"));
    assert!(error.message().contains("--setup-install-dir"));
}
