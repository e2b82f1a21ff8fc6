//! Setting up the installation directory and the shell's PATH.

use vstd::prelude::*;
use crate::config::{path_join, join_path, destination_dir_spec, opt_view, INSTALL_SUBDIR};
use crate::error::{InstallError, InstallErrorView};
use crate::tree::matches_at;

verus! {

/// The shell startup files looked for, most preferred first.
pub open spec fn shell_configs() -> Seq<Seq<char>> {
    seq![".zshrc"@, ".bashrc"@, ".bash_profile"@, ".profile"@]
}

/// The startup file used where none of them exists.
pub open spec fn default_shell_config() -> Seq<char> {
    ".bashrc"@
}

/// The file names of the shell startup files looked for, most preferred first.
pub fn shell_config_names() -> (r: Vec<&'static str>)
    ensures
        r@.map_values(|s: &str| s@) == shell_configs(),
        r@.len() == 4,
{
    let r = vec![".zshrc", ".bashrc", ".bash_profile", ".profile"];
    proof {
        reveal_strlit(".zshrc");
        reveal_strlit(".bashrc");
        reveal_strlit(".bash_profile");
        reveal_strlit(".profile");
    }
    assert(r@.map_values(|s: &str| s@) =~= shell_configs());
    r
}

/// The first of the startup files that exists, by `present[i]` for the i-th
/// of `shell_configs()`; the default where none does.
pub open spec fn chosen_config(present: Seq<bool>) -> Seq<char> {
    if exists|i: int| 0 <= i < 4 && i < present.len() && present[i] {
        let i = choose|i: int| 0 <= i < 4 && i < present.len() && present[i]
            && forall|j: int| 0 <= j < i ==> !present[j];
        shell_configs()[i]
    } else {
        default_shell_config()
    }
}

/// The shell startup file in `home` to configure; `present[i]` tells whether
/// the i-th of the files looked for exists.
pub fn find_shell_config(home: &str, present: &Vec<bool>) -> (r: String)
    ensures
        r@ == path_join(home@, chosen_config(present@)),
{
    let names = shell_config_names();
    let mut i: usize = 0;
    while i < 4
        invariant
            names@.map_values(|s: &str| s@) == shell_configs(),
            names@.len() == 4,
            0 <= i <= 4,
            forall|j: int| 0 <= j < i && j < present@.len() ==> !present@[j],
        decreases 4 - i,
    {
        if i < present.len() && present[i] {
            assert(names@.map_values(|s: &str| s@)[i as int] == names@[i as int]@);
            proof {
                let w = choose|k: int| 0 <= k < 4 && k < present@.len() && present@[k]
                    && forall|j: int| 0 <= j < k ==> !present@[j];
                assert(0 <= i < 4 && i < present@.len() && present@[i as int]
                    && forall|j: int| 0 <= j < i ==> !present@[j]);
                if w < i {
                } else if w > i {
                }
                assert(w == i);
            }
            return join_path(home, names[i]);
        }
        i = i + 1;
    }
    proof {
        reveal_strlit(".bashrc");
    }
    join_path(home, ".bashrc")
}

/// The line that puts `dir` first on the PATH.
pub open spec fn path_line_spec(dir: Seq<char>) -> Seq<char> {
    "export PATH=\""@ + dir + ":$PATH\""@
}

/// Whether `s` contains `part`.
pub open spec fn contains(s: Seq<char>, part: Seq<char>) -> bool {
    exists|i: int| 0 <= i && i + part.len() <= s.len() && #[trigger] s.subrange(i, i + part.len()) == part
}

/// A shell startup file's text with the PATH line for `dir` added, or `None`
/// where it already holds that line. The addition starts on a line of its own,
/// after a blank line, under a comment.
pub open spec fn with_path_config(content: Seq<char>, dir: Seq<char>) -> Option<Seq<char>> {
    if contains(content, path_line_spec(dir)) {
        None
    } else {
        let sep = if content.len() == 0 || content.last() == '\n' { ""@ } else { "\n"@ };
        Some(content + sep + "\n# Added by sw-install\n"@ + path_line_spec(dir) + "\n"@)
    }
}

/// The line that puts `dir` first on the PATH.
pub fn path_line(dir: &str) -> (r: String)
    ensures
        r@ == path_line_spec(dir@),
{
    let mut s = String::from_str("export PATH=\"");
    s.append(dir);
    s.append(":$PATH\"");
    s
}

/// Whether `s` contains `part`.
pub fn text_contains(s: &str, part: &str) -> (r: bool)
    ensures
        r == contains(s@, part@),
{
    let n = s.unicode_len();
    let m = part.unicode_len();
    if m > n {
        return false;
    }
    if m == 0 {
        assert(s@.subrange(0int, 0int + part@.len()) =~= part@);
        assert(contains(s@, part@));
        return true;
    }
    let mut i: usize = 0;
    while i <= n - m
        invariant
            n == s@.len(),
            m == part@.len(),
            0 < m <= n,
            0 <= i <= n - m + 1,
            forall|k: int| 0 <= k < i ==> #[trigger] s@.subrange(k, k + m) != part@,
        decreases n - m + 1 - i,
    {
        if matches_at(s, i, part) {
            return true;
        }
        i = i + 1;
    }
    false
}

/// A shell startup file's text with the PATH line for `dir` added, or `None`
/// where it already holds that line.
pub fn add_path_config(content: &str, dir: &str) -> (r: Option<String>)
    ensures
        match r {
            Some(t) => with_path_config(content@, dir@) == Some(t@),
            None => with_path_config(content@, dir@) is None,
        },
{
    let line = path_line(dir);
    if text_contains(content, line.as_str()) {
        return None;
    }
    let n = content.unicode_len();
    let mut t = String::from_str(content);
    if n > 0 && content.get_char(n - 1) != '\n' {
        t.append("\n");
    }
    t.append("\n# Added by sw-install\n");
    t.append(line.as_str());
    t.append("\n");
    proof {
        reveal_strlit("");
        reveal_strlit("\n");
    }
    assert(t@ =~= with_path_config(content@, dir@).unwrap());
    Some(t)
}

/// What a setup does: the installation directory, the startup file, and
/// whether each is to be written.
#[derive(Debug)]
pub struct SetupPlan {
    pub install_dir: String,
    pub shell_config: String,
    /// Whether the installation directory is to be created.
    pub create_dir: bool,
    /// Whether the startup file is to receive the PATH line.
    pub configure_shell: bool,
}

/// Sets up the installation directory and the shell's PATH.
pub struct Setup {
    pub dry_run: bool,
    pub test_dir: Option<String>,
}

impl Setup {
    pub fn new(dry_run: bool, test_dir: Option<String>) -> (r: Self)
        ensures
            r.dry_run == dry_run,
            r.test_dir == test_dir,
    {
        Setup { dry_run, test_dir }
    }

    /// Plans the setup: the installation directory (the test directory, else
    /// one below `home`), the startup file in `home` (by `present`, see
    /// `find_shell_config`); nothing is written in a dry run, and the startup
    /// file is left alone where a test directory is set. Fails where `home` is
    /// unknown.
    pub fn setup(&self, home: Option<&str>, present: &Vec<bool>) -> (r: Result<SetupPlan, InstallError>)
        ensures
            match r {
                Ok(p) => home matches Some(h)
                    && destination_dir_spec(opt_view(self.test_dir), Some(h@)) == Ok::<Seq<char>, ()>(p.install_dir@)
                    && p.shell_config@ == path_join(h@, chosen_config(present@))
                    && p.create_dir == !self.dry_run
                    && p.configure_shell == (!self.dry_run && self.test_dir is None),
                Err(e) => home is None && e@ == InstallErrorView::HomeNotFound,
            },
    {
        let h = match home {
            Some(h) => h,
            None => return Err(InstallError::HomeNotFound),
        };
        let install_dir = match &self.test_dir {
            Some(d) => d.clone(),
            None => join_path(h, INSTALL_SUBDIR),
        };
        let shell_config = find_shell_config(h, present);
        Ok(SetupPlan {
            install_dir,
            shell_config,
            create_dir: !self.dry_run,
            configure_shell: !self.dry_run && self.test_dir.is_none(),
        })
    }
}

} // verus!
