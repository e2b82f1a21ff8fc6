//! Installation settings and the paths derived from them.

use vstd::prelude::*;
use crate::error::InstallError;
use crate::tree::{rel_join, rel_path};
use crate::freshness::BUILD_DIR;

verus! {

/// The directory below the home directory where binaries are installed.
pub const INSTALL_SUBDIR: &'static str = ".local/softwarewrighter/bin";

/// `b` joined onto the path `a`: an absolute `b` replaces `a`, and one
/// separator stands between them.
pub open spec fn path_join(a: Seq<char>, b: Seq<char>) -> Seq<char> {
    if b.len() > 0 && b[0] == '/' {
        b
    } else if a.len() == 0 {
        b
    } else if a.last() == '/' {
        a + b
    } else {
        a + seq!['/'] + b
    }
}

/// The build profile directory: `debug` or `release`.
pub open spec fn subdir_spec(use_debug: bool) -> Seq<char> {
    if use_debug { "debug"@ } else { "release"@ }
}

/// Where the compiled binary `name` lies, relative to the project root, for a
/// build rooted at the relative directory `src`.
pub open spec fn artifact_rel(src: Seq<char>, use_debug: bool, name: Seq<char>) -> Seq<char> {
    rel_join(src, rel_join(rel_join(BUILD_DIR@, subdir_spec(use_debug)), name))
}

/// `b` joined onto the path `a`.
pub fn join_path(a: &str, b: &str) -> (r: String)
    ensures
        r@ == path_join(a@, b@),
{
    let n = a.unicode_len();
    if b.unicode_len() > 0 && b.get_char(0) == '/' {
        return String::from_str(b);
    }
    if n == 0 {
        return String::from_str(b);
    }
    let mut r = String::from_str(a);
    if a.get_char(n - 1) != '/' {
        r.append("/");
        proof {
            reveal_strlit("/");
        }
    }
    r.append(b);
    assert(r@ =~= path_join(a@, b@));
    r
}

/// Where the compiled binary `name` lies, relative to the project root.
pub fn artifact_rel_path(src: &str, use_debug: bool, name: &str) -> (r: String)
    ensures
        r@ == artifact_rel(src@, use_debug, name@),
{
    proof {
        reveal_strlit("debug");
        reveal_strlit("release");
    }
    let sub = if use_debug { "debug" } else { "release" };
    let t = rel_path(BUILD_DIR, sub);
    let b = rel_path(t.as_str(), name);
    rel_path(src, b.as_str())
}

/// The settings of one installation.
#[derive(Debug, Clone)]
pub struct InstallConfig {
    pub project_path: String,
    /// The name to install under, where it differs from the binary's own.
    pub binary_name: Option<String>,
    pub use_debug: bool,
    pub verbose: bool,
    pub dry_run: bool,
    /// A destination that replaces the default one.
    pub test_dir: Option<String>,
}

/// The destination directory, given the home directory where it is known.
pub open spec fn destination_dir_spec(test_dir: Option<Seq<char>>, home: Option<Seq<char>>) -> Result<Seq<char>, ()> {
    match test_dir {
        Some(d) => Ok(d),
        None => match home {
            Some(h) => Ok(path_join(h, INSTALL_SUBDIR@)),
            None => Err(()),
        },
    }
}

pub open spec fn opt_view(o: Option<String>) -> Option<Seq<char>> {
    match o {
        Some(s) => Some(s@),
        None => None,
    }
}

pub open spec fn opt_str_view(o: Option<&str>) -> Option<Seq<char>> {
    match o {
        Some(s) => Some(s@),
        None => None,
    }
}

impl InstallConfig {
    pub fn new(
        project_path: String,
        binary_name: Option<String>,
        use_debug: bool,
        verbose: bool,
        dry_run: bool,
        test_dir: Option<String>,
    ) -> (r: Self)
        ensures
            r.project_path == project_path,
            r.binary_name == binary_name,
            r.use_debug == use_debug,
            r.verbose == verbose,
            r.dry_run == dry_run,
            r.test_dir == test_dir,
    {
        InstallConfig { project_path, binary_name, use_debug, verbose, dry_run, test_dir }
    }

    /// The build profile directory: `debug` or `release`.
    pub fn target_subdir(&self) -> (r: &'static str)
        ensures
            r@ == subdir_spec(self.use_debug),
    {
        proof {
            reveal_strlit("debug");
            reveal_strlit("release");
        }
        if self.use_debug { "debug" } else { "release" }
    }

    /// Where the compiled binary `actual_name` of a single package or a
    /// workspace lies.
    pub fn source_binary_path(&self, actual_name: &str) -> (r: String)
        ensures
            r@ == path_join(self.project_path@, artifact_rel(""@, self.use_debug, actual_name@)),
    {
        proof {
            reveal_strlit("");
        }
        let rel = artifact_rel_path("", self.use_debug, actual_name);
        join_path(self.project_path.as_str(), rel.as_str())
    }

    /// The directory binaries are installed into: the test directory where one
    /// is set, else a fixed directory below `home`; fails where neither is known.
    pub fn destination_dir(&self, home: Option<&str>) -> (r: Result<String, InstallError>)
        ensures
            match r {
                Ok(d) => destination_dir_spec(opt_view(self.test_dir), opt_str_view(home)) == Ok::<Seq<char>, ()>(d@),
                Err(e) => destination_dir_spec(opt_view(self.test_dir), opt_str_view(home)) is Err
                    && e is HomeNotFound,
            },
    {
        match &self.test_dir {
            Some(d) => Ok(d.clone()),
            None => match home {
                Some(h) => Ok(join_path(h, INSTALL_SUBDIR)),
                None => Err(InstallError::HomeNotFound),
            },
        }
    }

    /// The path the binary `actual_name` is installed at: in the destination
    /// directory, under the rename where one is set.
    pub fn destination_binary_path(&self, actual_name: &str, home: Option<&str>) -> (r: Result<String, InstallError>)
        ensures
            match r {
                Ok(p) => exists|d: Seq<char>|
                    destination_dir_spec(opt_view(self.test_dir), opt_str_view(home)) == Ok::<Seq<char>, ()>(d)
                    && p@ == path_join(d, match self.binary_name {
                        Some(n) => n@,
                        None => actual_name@,
                    }),
                Err(e) => destination_dir_spec(opt_view(self.test_dir), opt_str_view(home)) is Err
                    && e is HomeNotFound,
            },
    {
        let dir = self.destination_dir(home);
        match dir {
            Ok(d) => {
                let p = match &self.binary_name {
                    Some(n) => join_path(d.as_str(), n.as_str()),
                    None => join_path(d.as_str(), actual_name),
                };
                Ok(p)
            },
            Err(e) => Err(e),
        }
    }
}

} // verus!
