use sw_install::cli::{dispatch, parse_build_type, Operation};
use sw_install::InstallError;

#[test]
fn dispatch_prefers_setup_then_list() {
    assert!(matches!(dispatch(true, true, Some("x".to_string()), None), Ok(Operation::Setup)));
    assert!(matches!(dispatch(false, true, Some("x".to_string()), None), Ok(Operation::List)));
    assert!(matches!(
        dispatch(false, false, Some("x".to_string()), Some("/p".to_string())),
        Ok(Operation::Uninstall { name }) if name == "x"
    ));
    assert!(matches!(
        dispatch(false, false, None, Some("/p".to_string())),
        Ok(Operation::Install { project }) if project == "/p"
    ));
}

#[test]
fn dispatch_without_operation_fails() {
    assert!(matches!(dispatch(false, false, None, None), Err(InstallError::NoOperationSpecified)));
}

#[test]
fn build_types_in_any_case() {
    assert_eq!(parse_build_type("debug"), Ok(true));
    assert_eq!(parse_build_type("DEBUG"), Ok(true));
    assert_eq!(parse_build_type("Release"), Ok(false));
    assert_eq!(
        parse_build_type("Fast"),
        Err("Invalid build type 'Fast'. Must be 'release' or 'debug'".to_string())
    );
}

#[test]
fn rarely_raised_errors_have_messages() {
    assert_eq!(
        InstallError::CargoTomlParse("bad key".to_string()).message(),
        "Could not parse Cargo.toml: bad key"
    );
    assert_eq!(InstallError::InvalidBinaryName("a/b".to_string()).message(), "Invalid binary name: a/b");
    assert_eq!(InstallError::BinaryNotInstalled("x".to_string()).message(), "Binary not installed: x");
    assert_eq!(
        InstallError::NotADirectory("/f".to_string()).message(),
        "Project path is not a directory: /f"
    );
    assert_eq!(InstallError::BinaryNameNotFound.message(), "Binary name not found in Cargo.toml");
}
