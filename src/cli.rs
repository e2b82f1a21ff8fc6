//! Choosing what a command line asks for.

use vstd::prelude::*;
use crate::error::{InstallError, InstallErrorView};
use crate::lister::{lower_of, lowercase};
use crate::tree::same_text;

verus! {

/// The operation a command line selects.
#[derive(Debug)]
pub enum Operation {
    Setup,
    List,
    Uninstall { name: String },
    Install { project: String },
}

/// Selects the operation: setup first, then listing, uninstalling and
/// installing; fails where none is asked for.
pub fn dispatch(setup: bool, list: bool, uninstall: Option<String>, project: Option<String>) -> (r: Result<Operation, InstallError>)
    ensures
        if setup {
            r matches Ok(Operation::Setup)
        } else if list {
            r matches Ok(Operation::List)
        } else if uninstall is Some {
            r matches Ok(Operation::Uninstall { name }) && Some(name) == uninstall
        } else if project is Some {
            r matches Ok(Operation::Install { project: p }) && Some(p) == project
        } else {
            r matches Err(e) && e@ == InstallErrorView::NoOperationSpecified
        },
{
    if setup {
        Ok(Operation::Setup)
    } else if list {
        Ok(Operation::List)
    } else if let Some(name) = uninstall {
        Ok(Operation::Uninstall { name })
    } else if let Some(p) = project {
        Ok(Operation::Install { project: p })
    } else {
        Err(InstallError::NoOperationSpecified)
    }
}

/// Whether the already lower-cased build type `lowered` asks for a debug
/// build; `None` where it names neither `debug` nor `release`.
pub open spec fn build_type_named(lowered: Seq<char>) -> Option<bool> {
    if lowered == "debug"@ {
        Some(true)
    } else if lowered == "release"@ {
        Some(false)
    } else {
        None
    }
}

/// The complaint about an unknown build type.
pub open spec fn bad_build_type(written: Seq<char>) -> Seq<char> {
    "Invalid build type '"@ + written + "'. Must be 'release' or 'debug'"@
}

/// Whether the build type `lowered` (the lower-cased form of `written`) asks
/// for a debug build.
pub fn build_type_from_lowered(lowered: &str, written: &str) -> (r: Result<bool, String>)
    ensures
        match r {
            Ok(d) => build_type_named(lowered@) == Some(d),
            Err(m) => build_type_named(lowered@) is None && m@ == bad_build_type(written@),
        },
{
    if same_text(lowered, "debug") {
        Ok(true)
    } else if same_text(lowered, "release") {
        Ok(false)
    } else {
        let mut m = String::from_str("Invalid build type '");
        m.append(written);
        m.append("'. Must be 'release' or 'debug'");
        Err(m)
    }
}

/// Whether the build type `written`, in any case, asks for a debug build.
pub fn parse_build_type(written: &str) -> (r: Result<bool, String>)
    ensures
        match r {
            Ok(d) => build_type_named(lower_of(written@)) == Some(d),
            Err(m) => build_type_named(lower_of(written@)) is None && m@ == bad_build_type(written@),
        },
{
    let lowered = lowercase(written);
    build_type_from_lowered(lowered.as_str(), written)
}

} // verus!
