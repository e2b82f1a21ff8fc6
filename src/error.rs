//! The errors of the installer, as plain values with a message each.

use vstd::prelude::*;

verus! {

/// An installer error, with the path or name it concerns.
#[derive(Debug, Clone)]
pub enum InstallError {
    ProjectNotFound(String),
    NotADirectory(String),
    /// No project structure was found under the path.
    CargoTomlNotFound(String),
    CargoTomlParse(String),
    BinaryNameNotFound,
    /// The compiled artifact is missing.
    BinaryNotFound(String),
    /// The compiled artifact is older than a source file.
    BinaryOutdated(String),
    BinaryNotInstalled(String),
    InstallDirNotFound(String),
    Io(String),
    InvalidBinaryName(String),
    HomeNotFound,
    NoOperationSpecified,
}

/// An installer error with its payload as text.
pub enum InstallErrorView {
    ProjectNotFound(Seq<char>),
    NotADirectory(Seq<char>),
    CargoTomlNotFound(Seq<char>),
    CargoTomlParse(Seq<char>),
    BinaryNameNotFound,
    BinaryNotFound(Seq<char>),
    BinaryOutdated(Seq<char>),
    BinaryNotInstalled(Seq<char>),
    InstallDirNotFound(Seq<char>),
    Io(Seq<char>),
    InvalidBinaryName(Seq<char>),
    HomeNotFound,
    NoOperationSpecified,
}

impl View for InstallError {
    type V = InstallErrorView;

    open spec fn view(&self) -> InstallErrorView {
        match self {
            InstallError::ProjectNotFound(p) => InstallErrorView::ProjectNotFound(p@),
            InstallError::NotADirectory(p) => InstallErrorView::NotADirectory(p@),
            InstallError::CargoTomlNotFound(p) => InstallErrorView::CargoTomlNotFound(p@),
            InstallError::CargoTomlParse(m) => InstallErrorView::CargoTomlParse(m@),
            InstallError::BinaryNameNotFound => InstallErrorView::BinaryNameNotFound,
            InstallError::BinaryNotFound(p) => InstallErrorView::BinaryNotFound(p@),
            InstallError::BinaryOutdated(p) => InstallErrorView::BinaryOutdated(p@),
            InstallError::BinaryNotInstalled(n) => InstallErrorView::BinaryNotInstalled(n@),
            InstallError::InstallDirNotFound(p) => InstallErrorView::InstallDirNotFound(p@),
            InstallError::Io(m) => InstallErrorView::Io(m@),
            InstallError::InvalidBinaryName(n) => InstallErrorView::InvalidBinaryName(n@),
            InstallError::HomeNotFound => InstallErrorView::HomeNotFound,
            InstallError::NoOperationSpecified => InstallErrorView::NoOperationSpecified,
        }
    }
}

/// The hint that follows an error about a missing or stale build.
pub open spec fn build_hint() -> Seq<char> {
    "\nHint: Run 'cargo build --release' in the project directory"@
}

/// The text shown for an error.
pub open spec fn message_spec(e: InstallErrorView) -> Seq<char> {
    match e {
        InstallErrorView::ProjectNotFound(p) => "Project path does not exist: "@ + p,
        InstallErrorView::NotADirectory(p) => "Project path is not a directory: "@ + p,
        InstallErrorView::CargoTomlNotFound(p) => "Cargo.toml not found in project: "@ + p,
        InstallErrorView::CargoTomlParse(m) => "Could not parse Cargo.toml: "@ + m,
        InstallErrorView::BinaryNameNotFound => "Binary name not found in Cargo.toml"@,
        InstallErrorView::BinaryNotFound(p) => "Source binary not found: "@ + p + build_hint(),
        InstallErrorView::BinaryOutdated(p) => "Binary is older than source files: "@ + p + build_hint(),
        InstallErrorView::BinaryNotInstalled(n) => "Binary not installed: "@ + n,
        InstallErrorView::InstallDirNotFound(p) => "Installation directory does not exist: "@ + p
            + "\nHint: Run 'sw-install --setup-install-dir' to create it and configure PATH"@,
        InstallErrorView::Io(m) => "IO error: "@ + m,
        InstallErrorView::InvalidBinaryName(n) => "Invalid binary name: "@ + n,
        InstallErrorView::HomeNotFound => "Home directory not found"@,
        InstallErrorView::NoOperationSpecified =>
            "No operation specified. Use --project, --uninstall, --list, or --setup-install-dir"@,
    }
}

/// `prefix`, then `p`, then `suffix`.
fn framed(prefix: &str, p: &String, suffix: &str) -> (r: String)
    ensures
        r@ == prefix@ + p@ + suffix@,
{
    let mut s = String::from_str(prefix);
    s.append(p.as_str());
    s.append(suffix);
    s
}

impl InstallError {
    /// The text shown for this error.
    pub fn message(&self) -> (r: String)
        ensures
            r@ == message_spec(self@),
    {
        let hint = "\nHint: Run 'cargo build --release' in the project directory";
        let r = match self {
            InstallError::ProjectNotFound(p) => framed("Project path does not exist: ", p, ""),
            InstallError::NotADirectory(p) => framed("Project path is not a directory: ", p, ""),
            InstallError::CargoTomlNotFound(p) => framed("Cargo.toml not found in project: ", p, ""),
            InstallError::CargoTomlParse(m) => framed("Could not parse Cargo.toml: ", m, ""),
            InstallError::BinaryNameNotFound => String::from_str("Binary name not found in Cargo.toml"),
            InstallError::BinaryNotFound(p) => framed("Source binary not found: ", p, hint),
            InstallError::BinaryOutdated(p) => framed("Binary is older than source files: ", p, hint),
            InstallError::BinaryNotInstalled(n) => framed("Binary not installed: ", n, ""),
            InstallError::InstallDirNotFound(p) => framed(
                "Installation directory does not exist: ",
                p,
                "\nHint: Run 'sw-install --setup-install-dir' to create it and configure PATH",
            ),
            InstallError::Io(m) => framed("IO error: ", m, ""),
            InstallError::InvalidBinaryName(n) => framed("Invalid binary name: ", n, ""),
            InstallError::HomeNotFound => String::from_str("Home directory not found"),
            InstallError::NoOperationSpecified => String::from_str(
                "No operation specified. Use --project, --uninstall, --list, or --setup-install-dir",
            ),
        };
        proof {
            reveal_strlit("");
        }
        assert(r@ =~= message_spec(self@));
        r
    }
}

#[verifier::external_type_specification]
#[verifier::external_body]
pub struct ExIoError(std::io::Error);

/// Relies on the `Display` of `std::io::Error`: the error's description.
#[verifier::external_body]
fn io_error_text(e: &std::io::Error) -> String {
    e.to_string()
}

impl From<std::io::Error> for InstallError {
    fn from(e: std::io::Error) -> InstallError {
        InstallError::Io(io_error_text(&e))
    }
}

/// The text of an I/O error is not known here, so no result is promised.
impl vstd::std_specs::convert::FromSpecImpl<std::io::Error> for InstallError {
    open spec fn obeys_from_spec() -> bool {
        false
    }

    open spec fn from_spec(v: std::io::Error) -> InstallError {
        InstallError::BinaryNameNotFound
    }
}

} // verus!
