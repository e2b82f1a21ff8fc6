//! Resolving a project to the binary it builds and the artifact to install.

use vstd::prelude::*;
use crate::config::{InstallConfig, path_join, artifact_rel, artifact_rel_path, join_path};
use crate::error::{InstallError, InstallErrorView};
use crate::freshness::{outdated, is_outdated};
use crate::manifest::{
    get, has_key, simple_binary_name_spec, simple_binary_name,
    workspace_members_spec, workspace_members,
};
use crate::tree::{
    FsEntry, ProjectTree, MANIFEST_FILE, rel_join, manifest_at, find_entry, child_dirs, read_manifest,
    lookup_entry, list_child_dirs, rel_path,
};
use crate::workspace::{workspace_candidates, find_workspace_binaries};

verus! {

/// The directory that holds the independent workspaces of a multi-component project.
pub const COMPONENTS_DIR: &'static str = "components";

/// The structure of a project.
#[derive(Debug)]
pub enum ProjectType {
    /// The root manifest declares a package and no workspace.
    Simple,
    /// The root manifest declares a workspace.
    Workspace,
    /// No usable root manifest; the workspace at `component_path` (relative to
    /// the project root) offers a binary.
    MultiComponent { component_path: String },
}

/// The structure of a project, with paths as text.
pub enum Layout {
    Simple,
    Workspace,
    MultiComponent(Seq<char>),
}

impl View for ProjectType {
    type V = Layout;

    open spec fn view(&self) -> Layout {
        match self {
            ProjectType::Simple => Layout::Simple,
            ProjectType::Workspace => Layout::Workspace,
            ProjectType::MultiComponent { component_path } => Layout::MultiComponent(component_path@),
        }
    }
}

impl ProjectType {
    /// A short name of the structure.
    pub fn description(&self) -> (r: &'static str)
        ensures
            r@ == match self@ {
                Layout::Simple => "simple package"@,
                Layout::Workspace => "workspace"@,
                Layout::MultiComponent(_) => "multi-component"@,
            },
    {
        proof {
            reveal_strlit("simple package");
            reveal_strlit("workspace");
            reveal_strlit("multi-component");
        }
        match self {
            ProjectType::Simple => "simple package",
            ProjectType::Workspace => "workspace",
            ProjectType::MultiComponent { .. } => "multi-component",
        }
    }
}

/// The binary candidates of the workspace whose manifest is in the relative
/// directory `w`; none where that manifest is unusable or declares no members.
pub open spec fn workspace_binaries_at(es: Seq<FsEntry>, w: Seq<char>) -> Seq<Seq<char>> {
    match manifest_at(es, w) {
        Some(v) => match workspace_members_spec(v) {
            Some(ms) => workspace_candidates(es, w, ms),
            None => Seq::empty(),
        },
        None => Seq::empty(),
    }
}

/// The component directory (relative to the project root) of a component name.
pub open spec fn component_dir(name: Seq<char>) -> Seq<char> {
    rel_join(COMPONENTS_DIR@, name)
}

/// The first of the component `names` whose workspace offers a binary.
pub open spec fn first_component(es: Seq<FsEntry>, names: Seq<Seq<char>>) -> Option<Seq<char>>
    decreases names.len(),
{
    if names.len() == 0 {
        None
    } else if workspace_binaries_at(es, component_dir(names[0])).len() > 0 {
        Some(names[0])
    } else {
        first_component(es, names.drop_first())
    }
}

/// The structure of the project: by its root manifest where that declares a
/// workspace or a package, else by the first component whose workspace offers a
/// binary, in enumeration order.
pub open spec fn detect_spec(es: Seq<FsEntry>) -> Option<Layout> {
    match manifest_at(es, ""@) {
        Some(v) if has_key(v, "workspace"@) => Some(Layout::Workspace),
        Some(v) if has_key(v, "package"@) => Some(Layout::Simple),
        _ => match first_component(es, child_dirs(es, COMPONENTS_DIR@)) {
            Some(n) => Some(Layout::MultiComponent(component_dir(n))),
            None => None,
        },
    }
}

/// The relative directory that holds the manifest, the sources and the build
/// output of the binary.
pub open spec fn source_root(l: Layout) -> Seq<char> {
    match l {
        Layout::MultiComponent(c) => c,
        _ => ""@,
    }
}

/// The binary candidates of a project of the given structure, the chosen one first.
pub open spec fn candidates_spec(es: Seq<FsEntry>, l: Layout) -> Seq<Seq<char>> {
    match l {
        Layout::Simple => match manifest_at(es, ""@) {
            Some(v) => match simple_binary_name_spec(v) {
                Some(n) => seq![n],
                None => Seq::empty(),
            },
            None => Seq::empty(),
        },
        _ => workspace_binaries_at(es, source_root(l)),
    }
}

/// Where the manifest that names the binary of a project of structure `l`
/// lies, below the project path `root`.
pub open spec fn manifest_path(root: Seq<char>, l: Layout) -> Seq<char> {
    path_join(root, rel_join(source_root(l), MANIFEST_FILE@))
}

/// The name-resolution stage: the manifest that names the binary must be
/// readable valid TOML, else the manifest error; a manifest that yields no
/// candidate gives the missing-name error.
pub open spec fn extraction_spec(root: Seq<char>, es: Seq<FsEntry>, l: Layout) -> Result<Seq<Seq<char>>, InstallErrorView> {
    if manifest_at(es, source_root(l)) is None {
        Err(InstallErrorView::CargoTomlParse(manifest_path(root, l)))
    } else if candidates_spec(es, l).len() == 0 {
        Err(InstallErrorView::BinaryNameNotFound)
    } else {
        Ok(candidates_spec(es, l))
    }
}

/// The modification time of the entry at `p`, the epoch where it is unknown.
pub open spec fn time_at(es: Seq<FsEntry>, p: Seq<char>) -> u64 {
    match find_entry(es, p) {
        Some(e) => match e.modified {
            Some(m) => m,
            None => 0,
        },
        None => 0,
    }
}

/// What resolving a project gives: the binary name, the artifact path and every
/// candidate found.
pub struct Resolved {
    pub name: Seq<char>,
    pub artifact: Seq<char>,
    pub candidates: Seq<Seq<char>>,
}

/// The check of the project path itself.
pub open spec fn path_check(root: Seq<char>, t: ProjectTree) -> Result<(), InstallErrorView> {
    if !t.exists {
        Err(InstallErrorView::ProjectNotFound(root))
    } else if !t.is_dir {
        Err(InstallErrorView::NotADirectory(root))
    } else {
        Ok(())
    }
}

/// The check of the artifact of the binary `name` of a project of structure
/// `l`: it must exist and be no older than any source file; gives its path.
pub open spec fn artifact_check(root: Seq<char>, use_debug: bool, es: Seq<FsEntry>, l: Layout, name: Seq<char>) -> Result<Seq<char>, InstallErrorView> {
    let rel = artifact_rel(source_root(l), use_debug, name);
    let path = path_join(root, rel);
    if find_entry(es, rel) is None {
        Err(InstallErrorView::BinaryNotFound(path))
    } else if outdated(es, source_root(l), time_at(es, rel)) {
        Err(InstallErrorView::BinaryOutdated(path))
    } else {
        Ok(path)
    }
}

/// Resolving the project at `root` (as given by the caller), of which `t` is a
/// snapshot: the path is checked, the structure detected, the binary chosen,
/// and its artifact checked, in turn; the first failure ends it.
pub open spec fn resolve_spec(root: Seq<char>, use_debug: bool, t: ProjectTree) -> Result<Resolved, InstallErrorView> {
    let es = t.entries@;
    match path_check(root, t) {
        Err(e) => Err(e),
        Ok(_) => match detect_spec(es) {
            None => Err(InstallErrorView::CargoTomlNotFound(root)),
            Some(l) => match extraction_spec(root, es, l) {
                Err(e) => Err(e),
                Ok(cands) => match artifact_check(root, use_debug, es, l, cands[0]) {
                    Err(e) => Err(e),
                    Ok(path) => Ok(Resolved { name: cands[0], artifact: path, candidates: cands }),
                },
            },
        },
    }
}

/// The outcome of a successful validation.
#[derive(Debug)]
pub struct ValidationResult {
    pub binary_name: String,
    pub source_binary_path: String,
    /// Every binary candidate found, the chosen one first.
    pub candidates: Vec<String>,
}

/// An outcome of validation, as text.
pub open spec fn outcome_view(r: Result<ValidationResult, InstallError>) -> Result<Resolved, InstallErrorView> {
    match r {
        Ok(v) => Ok(Resolved {
            name: v.binary_name@,
            artifact: v.source_binary_path@,
            candidates: v.candidates@.map_values(|s: String| s@),
        }),
        Err(e) => Err(e@),
    }
}

/// The binary candidates of the workspace in the relative directory `w`.
fn binaries_at(es: &Vec<FsEntry>, w: &str) -> (r: Vec<String>)
    ensures
        r@.map_values(|s: String| s@) == workspace_binaries_at(es@, w@),
{
    match read_manifest(es, w) {
        Some(v) => match workspace_members(&v) {
            Some(ms) => find_workspace_binaries(es, w, ms),
            None => {
                let out: Vec<String> = Vec::new();
                assert(out@.map_values(|s: String| s@) =~= Seq::<Seq<char>>::empty());
                out
            },
        },
        None => {
            let out: Vec<String> = Vec::new();
            assert(out@.map_values(|s: String| s@) =~= Seq::<Seq<char>>::empty());
            out
        },
    }
}

/// The first component (as a directory relative to the project root) whose
/// workspace offers a binary.
pub fn find_component_with_binary(es: &Vec<FsEntry>) -> (r: Option<String>)
    ensures
        match r {
            Some(c) => exists|n: Seq<char>|
                first_component(es@, child_dirs(es@, COMPONENTS_DIR@)) == Some(n) && c@ == component_dir(n),
            None => first_component(es@, child_dirs(es@, COMPONENTS_DIR@)) is None,
        },
{
    let names = list_child_dirs(es, COMPONENTS_DIR);
    let ghost ns = names@.map_values(|s: String| s@);
    let mut i: usize = 0;
    assert(ns.subrange(0, ns.len() as int) =~= ns);
    while i < names.len()
        invariant
            0 <= i <= names@.len(),
            ns == names@.map_values(|s: String| s@),
            ns == child_dirs(es@, COMPONENTS_DIR@),
            first_component(es@, ns) == first_component(es@, ns.subrange(i as int, ns.len() as int)),
        decreases names@.len() - i,
    {
        assert(ns.subrange(i as int, ns.len() as int).drop_first() =~= ns.subrange(i + 1, ns.len() as int));
        assert(ns.subrange(i as int, ns.len() as int)[0] == names@[i as int]@);
        let c = rel_path(COMPONENTS_DIR, names[i].as_str());
        let found = binaries_at(es, c.as_str());
        if found.len() > 0 {
            return Some(c);
        }
        i = i + 1;
    }
    None
}

/// The structure of the project (see `detect_spec`).
pub fn detect_project_type(es: &Vec<FsEntry>) -> (r: Option<ProjectType>)
    ensures
        match r {
            Some(p) => detect_spec(es@) == Some(p@),
            None => detect_spec(es@) is None,
        },
{
    proof {
        reveal_strlit("");
    }
    let root = read_manifest(es, "");
    if let Some(v) = &root {
        if get(v, "workspace").is_some() {
            return Some(ProjectType::Workspace);
        }
        if get(v, "package").is_some() {
            return Some(ProjectType::Simple);
        }
    }
    match find_component_with_binary(es) {
        Some(c) => Some(ProjectType::MultiComponent { component_path: c }),
        None => None,
    }
}

/// The relative directory that holds the manifest, the sources and the build
/// output of the binary.
fn source_root_of(p: &ProjectType) -> (r: String)
    ensures
        r@ == source_root(p@),
{
    proof {
        reveal_strlit("");
    }
    match p {
        ProjectType::MultiComponent { component_path } => component_path.clone(),
        _ => String::from_str(""),
    }
}

/// The binary candidates of a project of the given structure, the chosen one first.
pub fn extract_binary_names(es: &Vec<FsEntry>, p: &ProjectType) -> (r: Vec<String>)
    ensures
        r@.map_values(|s: String| s@) == candidates_spec(es@, p@),
{
    proof {
        reveal_strlit("");
    }
    match p {
        ProjectType::Simple => {
            let mut out: Vec<String> = Vec::new();
            if let Some(v) = read_manifest(es, "") {
                if let Some(n) = simple_binary_name(&v) {
                    out.push(n);
                }
            }
            assert(out@.map_values(|s: String| s@) =~= candidates_spec(es@, p@));
            out
        },
        _ => {
            let w = source_root_of(p);
            binaries_at(es, w.as_str())
        },
    }
}

/// Resolves projects against one configuration.
pub struct Validator<'a> {
    config: &'a InstallConfig,
}

impl<'a> Validator<'a> {
    pub fn new(config: &'a InstallConfig) -> (r: Self)
        ensures
            r.config() == config,
    {
        Validator { config }
    }

    pub closed spec fn config(&self) -> &'a InstallConfig {
        self.config
    }

    /// Checks that the project path exists and is a directory.
    pub fn validate_project_path(&self, tree: &ProjectTree) -> (r: Result<(), InstallError>)
        ensures
            match r {
                Ok(_) => path_check(self.config().project_path@, *tree) is Ok,
                Err(e) => path_check(self.config().project_path@, *tree) == Err::<(), InstallErrorView>(e@),
            },
    {
        if !tree.exists {
            return Err(InstallError::ProjectNotFound(self.config.project_path.clone()));
        }
        if !tree.is_dir {
            return Err(InstallError::NotADirectory(self.config.project_path.clone()));
        }
        Ok(())
    }

    /// The structure of the project; fails where none of the supported ones is found.
    pub fn detect_project_type(&self, tree: &ProjectTree) -> (r: Result<ProjectType, InstallError>)
        ensures
            match r {
                Ok(p) => detect_spec(tree.entries@) == Some(p@),
                Err(e) => detect_spec(tree.entries@) is None
                    && e@ == InstallErrorView::CargoTomlNotFound(self.config().project_path@),
            },
    {
        match detect_project_type(&tree.entries) {
            Some(k) => Ok(k),
            None => Err(InstallError::CargoTomlNotFound(self.config.project_path.clone())),
        }
    }

    /// The binary candidates of the project, the chosen one first. Fails with
    /// the manifest error where the manifest that names the binary cannot be
    /// read or parsed, and with the missing-name error where it yields no
    /// candidate.
    pub fn extract_binary_name_for_type(&self, tree: &ProjectTree, kind: &ProjectType) -> (r: Result<Vec<String>, InstallError>)
        ensures
            match r {
                Ok(v) => extraction_spec(self.config().project_path@, tree.entries@, kind@)
                    == Ok::<Seq<Seq<char>>, InstallErrorView>(v@.map_values(|s: String| s@)),
                Err(e) => extraction_spec(self.config().project_path@, tree.entries@, kind@)
                    == Err::<Seq<Seq<char>>, InstallErrorView>(e@),
            },
            manifest_at(tree.entries@, source_root(kind@)) is None ==> (r matches Err(e) && e@ is CargoTomlParse),
    {
        let src = source_root_of(kind);
        if read_manifest(&tree.entries, src.as_str()).is_none() {
            let rel = rel_path(src.as_str(), MANIFEST_FILE);
            return Err(InstallError::CargoTomlParse(join_path(self.config.project_path.as_str(), rel.as_str())));
        }
        let cands = extract_binary_names(&tree.entries, kind);
        if cands.len() == 0 {
            return Err(InstallError::BinaryNameNotFound);
        }
        Ok(cands)
    }

    /// Checks that the artifact of the binary `name` exists and is no older
    /// than any source file; gives its path.
    pub fn validate_source_binary_for_type(&self, tree: &ProjectTree, name: &str, kind: &ProjectType) -> (r: Result<String, InstallError>)
        ensures
            match r {
                Ok(p) => artifact_check(self.config().project_path@, self.config().use_debug, tree.entries@, kind@, name@)
                    == Ok::<Seq<char>, InstallErrorView>(p@),
                Err(e) => artifact_check(self.config().project_path@, self.config().use_debug, tree.entries@, kind@, name@)
                    == Err::<Seq<char>, InstallErrorView>(e@),
            },
    {
        let es = &tree.entries;
        let src = source_root_of(kind);
        let rel = artifact_rel_path(src.as_str(), self.config.use_debug, name);
        let path = join_path(self.config.project_path.as_str(), rel.as_str());
        let t = match lookup_entry(es, rel.as_str()) {
            Some(e) => match e.modified {
                Some(m) => m,
                None => 0,
            },
            None => return Err(InstallError::BinaryNotFound(path)),
        };
        if is_outdated(es, src.as_str(), t) {
            return Err(InstallError::BinaryOutdated(path));
        }
        Ok(path)
    }

    /// Checks the project path, detects the project's structure, resolves the
    /// binary name, and checks that its artifact exists and is not older than
    /// any source file; the first failing stage gives the error.
    pub fn validate(&self, tree: &ProjectTree) -> (r: Result<ValidationResult, InstallError>)
        ensures
            outcome_view(r) == resolve_spec(self.config().project_path@, self.config().use_debug, *tree),
    {
        match self.validate_project_path(tree) {
            Ok(_) => {},
            Err(e) => return Err(e),
        }
        let kind = match self.detect_project_type(tree) {
            Ok(k) => k,
            Err(e) => return Err(e),
        };
        let cands = match self.extract_binary_name_for_type(tree, &kind) {
            Ok(c) => c,
            Err(e) => return Err(e),
        };
        assert(cands@.len() > 0);
        let name = cands[0].clone();
        assert(cands@.map_values(|s: String| s@)[0] == cands@[0]@);
        let path = match self.validate_source_binary_for_type(tree, name.as_str(), &kind) {
            Ok(p) => p,
            Err(e) => return Err(e),
        };
        Ok(ValidationResult { binary_name: name, source_binary_path: path, candidates: cands })
    }
}

} // verus!
