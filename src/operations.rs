//! Installing and uninstalling a binary: what is to be done, decided from the
//! configuration and the state of the destination.

use vstd::prelude::*;
use crate::config::{InstallConfig, path_join, join_path, destination_dir_spec, opt_view, opt_str_view};
use crate::error::{InstallError, InstallErrorView};

verus! {

/// Checks that an installed binary is there: its directory `dir` first, where
/// `check_parent` asks for it, then the binary at `path` itself.
pub fn validate_binary_exists(
    path: &str,
    path_exists: bool,
    dir: &str,
    dir_exists: bool,
    name: &str,
    check_parent: bool,
) -> (r: Result<String, InstallError>)
    ensures
        match r {
            Ok(p) => (!check_parent || dir_exists) && path_exists && p@ == path@,
            Err(e) => if check_parent && !dir_exists {
                e@ == InstallErrorView::InstallDirNotFound(dir@)
            } else {
                !path_exists && e@ == InstallErrorView::BinaryNotInstalled(name@)
            },
        },
{
    if check_parent && !dir_exists {
        return Err(InstallError::InstallDirNotFound(String::from_str(dir)));
    }
    if !path_exists {
        return Err(InstallError::BinaryNotInstalled(String::from_str(name)));
    }
    Ok(String::from_str(path))
}

/// What an installation does: copy `source` to `dest_binary` in `dest_dir`,
/// unless it is a dry run.
#[derive(Debug)]
pub struct InstallPlan {
    pub source: String,
    pub dest_dir: String,
    pub dest_binary: String,
    /// Whether the directory is created, the binary copied and made executable.
    pub perform: bool,
}

/// Installs one resolved binary.
pub struct Installer<'a> {
    pub config: &'a InstallConfig,
    pub binary_name: String,
    pub source_binary_path: String,
}

impl<'a> Installer<'a> {
    pub fn new(config: &'a InstallConfig, binary_name: String, source_binary_path: String) -> (r: Self)
        ensures
            r.config == config,
            r.binary_name == binary_name,
            r.source_binary_path == source_binary_path,
    {
        Installer { config, binary_name, source_binary_path }
    }

    /// Plans the installation into the destination directory (the test
    /// directory, else one below `home`), under the rename where one is set.
    /// Outside a dry run and without a test directory, the default destination
    /// must stand in an existing directory (`parent_exists`), else the setup has
    /// not been run.
    pub fn install(&self, home: Option<&str>, parent_exists: bool) -> (r: Result<InstallPlan, InstallError>)
        ensures
            match destination_dir_spec(opt_view(self.config.test_dir), opt_str_view(home)) {
                Err(_) => r matches Err(e) && e@ == InstallErrorView::HomeNotFound,
                Ok(d) => if self.config.test_dir is None && !self.config.dry_run && !parent_exists {
                    r matches Err(e) && e@ == InstallErrorView::InstallDirNotFound(d)
                } else {
                    r matches Ok(p) && p.dest_dir@ == d && p.source@ == self.source_binary_path@
                        && p.dest_binary@ == path_join(d, match self.config.binary_name {
                            Some(n) => n@,
                            None => self.binary_name@,
                        })
                        && p.perform == !self.config.dry_run
                },
            },
    {
        let dest_dir = match self.config.destination_dir(home) {
            Ok(d) => d,
            Err(e) => return Err(e),
        };
        if self.config.test_dir.is_none() && !self.config.dry_run && !parent_exists {
            return Err(InstallError::InstallDirNotFound(dest_dir));
        }
        let dest_binary = match &self.config.binary_name {
            Some(n) => join_path(dest_dir.as_str(), n.as_str()),
            None => join_path(dest_dir.as_str(), self.binary_name.as_str()),
        };
        Ok(InstallPlan {
            source: self.source_binary_path.clone(),
            dest_dir,
            dest_binary,
            perform: !self.config.dry_run,
        })
    }
}

/// Removes one installed binary.
pub struct Uninstaller {
    pub binary_name: String,
    pub dry_run: bool,
    pub test_dir: Option<String>,
}

impl Uninstaller {
    pub fn new(binary_name: String, dry_run: bool, test_dir: Option<String>) -> (r: Self)
        ensures
            r.binary_name == binary_name,
            r.dry_run == dry_run,
            r.test_dir == test_dir,
    {
        Uninstaller { binary_name, dry_run, test_dir }
    }

    /// The directory the binary is installed in.
    pub fn destination_dir(&self, home: Option<&str>) -> (r: Result<String, InstallError>)
        ensures
            match r {
                Ok(d) => destination_dir_spec(opt_view(self.test_dir), opt_str_view(home)) == Ok::<Seq<char>, ()>(d@),
                Err(e) => destination_dir_spec(opt_view(self.test_dir), opt_str_view(home)) is Err
                    && e@ == InstallErrorView::HomeNotFound,
            },
    {
        match &self.test_dir {
            Some(d) => Ok(d.clone()),
            None => match home {
                Some(h) => Ok(join_path(h, crate::config::INSTALL_SUBDIR)),
                None => Err(InstallError::HomeNotFound),
            },
        }
    }

    /// Where the binary is installed.
    pub fn binary_path(&self, home: Option<&str>) -> (r: Result<String, InstallError>)
        ensures
            match r {
                Ok(p) => exists|d: Seq<char>|
                    destination_dir_spec(opt_view(self.test_dir), opt_str_view(home)) == Ok::<Seq<char>, ()>(d)
                    && p@ == path_join(d, self.binary_name@),
                Err(e) => destination_dir_spec(opt_view(self.test_dir), opt_str_view(home)) is Err
                    && e@ == InstallErrorView::HomeNotFound,
            },
    {
        match self.destination_dir(home) {
            Ok(d) => Ok(join_path(d.as_str(), self.binary_name.as_str())),
            Err(e) => Err(e),
        }
    }

    /// Decides the removal: the path of the binary to remove, or `None` in a
    /// dry run. `dir_exists` and `binary_exists` tell whether the destination
    /// directory and the binary in it exist; a missing directory is an error
    /// only without a test directory.
    pub fn uninstall(&self, home: Option<&str>, dir_exists: bool, binary_exists: bool) -> (r: Result<Option<String>, InstallError>)
        ensures
            match destination_dir_spec(opt_view(self.test_dir), opt_str_view(home)) {
                Err(_) => r matches Err(e) && e@ == InstallErrorView::HomeNotFound,
                Ok(d) => if self.test_dir is None && !dir_exists {
                    r matches Err(e) && e@ == InstallErrorView::InstallDirNotFound(d)
                } else if !binary_exists {
                    r matches Err(e) && e@ == InstallErrorView::BinaryNotInstalled(self.binary_name@)
                } else if self.dry_run {
                    r matches Ok(None)
                } else {
                    r matches Ok(Some(p)) && p@ == path_join(d, self.binary_name@)
                },
            },
    {
        let dir = match self.destination_dir(home) {
            Ok(d) => d,
            Err(e) => return Err(e),
        };
        let path = join_path(dir.as_str(), self.binary_name.as_str());
        let checked = validate_binary_exists(
            path.as_str(),
            binary_exists,
            dir.as_str(),
            dir_exists,
            self.binary_name.as_str(),
            self.test_dir.is_none(),
        );
        match checked {
            Ok(p) => if self.dry_run { Ok(None) } else { Ok(Some(p)) },
            Err(e) => Err(e),
        }
    }
}

} // verus!
