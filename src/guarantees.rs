//! What resolution guarantees, stated over the specifications of the resolver
//! and proved from them.

use vstd::prelude::*;
use crate::config::{path_join, artifact_rel};
use crate::error::InstallErrorView;
use crate::freshness::{outdated, newer_source, is_source_file, has_component, BUILD_DIR};
use crate::manifest::{TomlValue, has_key, package_name, bin_entries, target_name};
use crate::tree::{FsEntry, ProjectTree, manifest_at, child_dirs, rel_join, below, normalize_path};
use crate::validator::{
    Layout, Resolved, resolve_spec, detect_spec, candidates_spec, component_dir,
    workspace_binaries_at, outcome_view, COMPONENTS_DIR,
};
use crate::workspace::{
    workspace_candidates, paths_candidates, member_candidates, is_wildcard, wildcard_base,
    expand_member,
};

verus! {

/// Whether resolution chose the binary `name` and looked for its artifact at
/// `path`: it succeeded with both, or failed because that artifact is missing
/// or outdated.
pub open spec fn chose(r: Result<Resolved, InstallErrorView>, name: Seq<char>, path: Seq<char>) -> bool {
    match r {
        Ok(res) => res.name == name && res.artifact == path,
        Err(InstallErrorView::BinaryNotFound(p)) => p == path,
        Err(InstallErrorView::BinaryOutdated(p)) => p == path,
        Err(_) => false,
    }
}

/// A project whose root manifest declares a package named `n`, no workspace and
/// no explicit binary target resolves to `n`: the chosen binary is the package
/// name, and its artifact is looked for under the project's build directory.
pub proof fn package_name_is_binary(root: Seq<char>, use_debug: bool, t: ProjectTree, v: TomlValue, n: Seq<char>)
    requires
        t.exists,
        t.is_dir,
        manifest_at(t.entries@, ""@) == Some(v),
        !has_key(v, "workspace"@),
        package_name(v) == Some(n),
        match bin_entries(v) {
            Some(bins) => bins.len() == 0,
            None => true,
        },
    ensures
        detect_spec(t.entries@) == Some(Layout::Simple),
        chose(resolve_spec(root, use_debug, t), n, path_join(root, artifact_rel(""@, use_debug, n))),
{
    assert(candidates_spec(t.entries@, Layout::Simple) =~= seq![n]);
}

/// A project whose root manifest declares a package and one or more explicit
/// binary targets, and no workspace, resolves to the first target's name,
/// whatever the package is named.
pub proof fn first_target_is_binary(root: Seq<char>, use_debug: bool, t: ProjectTree, v: TomlValue, n: Seq<char>)
    requires
        t.exists,
        t.is_dir,
        manifest_at(t.entries@, ""@) == Some(v),
        !has_key(v, "workspace"@),
        has_key(v, "package"@),
        bin_entries(v) is Some,
        bin_entries(v).unwrap().len() > 0,
        target_name(bin_entries(v).unwrap()[0]) == Some(n),
    ensures
        detect_spec(t.entries@) == Some(Layout::Simple),
        chose(resolve_spec(root, use_debug, t), n, path_join(root, artifact_rel(""@, use_debug, n))),
{
    assert(candidates_spec(t.entries@, Layout::Simple) =~= seq![n]);
}

proof fn paths_candidates_flatten(es: Seq<FsEntry>, w: Seq<char>, ps: Seq<Seq<char>>)
    ensures
        paths_candidates(es, w, ps)
            == ps.map_values(|p: Seq<char>| member_candidates(es, w, p)).flatten_alt(),
    decreases ps.len(),
{
    let f = |p: Seq<char>| member_candidates(es, w, p);
    if ps.len() > 0 {
        paths_candidates_flatten(es, w, ps.drop_last());
        assert(ps.map_values(f).drop_last() =~= ps.drop_last().map_values(f));
    } else {
        assert(ps.map_values(f) =~= Seq::<Seq<Seq<char>>>::empty());
    }
}

/// A wildcard member pattern contributes exactly the binaries of each
/// subdirectory of its base `d` (the base below the workspace, in normal
/// form), subdirectory after subdirectory in enumeration order, each in its own
/// declared order; none where there is no subdirectory.
pub proof fn wildcard_is_union_of_subdirectories(es: Seq<FsEntry>, w: Seq<char>, pattern: String, d: Seq<char>)
    requires
        is_wildcard(pattern@),
        normalize_path(rel_join(w, wildcard_base(pattern@))) == Some(d),
    ensures
        workspace_candidates(es, w, seq![TomlValue::Str(pattern)])
            == child_dirs(es, d)
                .map_values(|n: Seq<char>| member_candidates(es, w, rel_join(wildcard_base(pattern@), n)))
                .flatten(),
{
    let base = wildcard_base(pattern@);
    let names = child_dirs(es, d);
    let ps = expand_member(es, w, pattern@);
    let ms = seq![TomlValue::Str(pattern)];
    assert(ms.drop_last() =~= Seq::<TomlValue>::empty());
    assert(ms.last() == TomlValue::Str(pattern));
    assert(workspace_candidates(es, w, ms.drop_last()) =~= Seq::<Seq<char>>::empty());
    assert(workspace_candidates(es, w, ms) =~= paths_candidates(es, w, ps));
    paths_candidates_flatten(es, w, ps);
    let f = |p: Seq<char>| member_candidates(es, w, p);
    let g = |n: Seq<char>| member_candidates(es, w, rel_join(base, n));
    assert(ps.map_values(f) =~= names.map_values(g));
    names.map_values(g).lemma_flatten_and_flatten_alt_are_equivalent();
}

/// A source file below the source root modified strictly after the artifact
/// makes the artifact outdated.
pub proof fn newer_source_outdates(es: Seq<FsEntry>, s: Seq<char>, t: u64, i: int)
    requires
        0 <= i < es.len(),
        is_source_file(es[i], s),
        es[i].modified matches Some(m) && m > t,
    ensures
        outdated(es, s, t),
{
    assert(newer_source(es[i], s, t));
}

/// An artifact at least as new as every source file below the source root is
/// not outdated.
pub proof fn older_sources_keep_fresh(es: Seq<FsEntry>, s: Seq<char>, t: u64)
    requires
        forall|i: int| 0 <= i < es.len() && is_source_file(#[trigger] es[i], s) ==>
            (es[i].modified matches Some(m) ==> m <= t),
    ensures
        !outdated(es, s, t),
{
}

/// A file inside a build-output directory never changes whether an artifact
/// is outdated, whatever its modification time.
pub proof fn build_output_never_counts(es: Seq<FsEntry>, s: Seq<char>, t: u64, e: FsEntry)
    requires
        below(e.path@, s) matches Some(r) && has_component(r, BUILD_DIR@),
    ensures
        outdated(es.push(e), s, t) == outdated(es, s, t),
{
    let es2 = es.push(e);
    assert(!newer_source(e, s, t));
    if outdated(es2, s, t) {
        let i = choose|i: int| 0 <= i < es2.len() && newer_source(es2[i], s, t);
        assert(i < es.len());
        assert(es2[i] == es[i]);
    }
    if outdated(es, s, t) {
        let i = choose|i: int| 0 <= i < es.len() && newer_source(es[i], s, t);
        assert(es2[i] == es[i]);
    }
}

/// A project with no usable root manifest whose first component directory holds
/// a workspace offering a binary is a multi-component project rooted there,
/// and its artifact is looked for under that component's build directory.
pub proof fn component_workspace_is_detected(root: Seq<char>, use_debug: bool, t: ProjectTree, foo: Seq<char>)
    requires
        t.exists,
        t.is_dir,
        manifest_at(t.entries@, ""@) is None,
        child_dirs(t.entries@, COMPONENTS_DIR@).len() > 0,
        child_dirs(t.entries@, COMPONENTS_DIR@)[0] == foo,
        workspace_binaries_at(t.entries@, component_dir(foo)).len() > 0,
    ensures
        detect_spec(t.entries@) == Some(Layout::MultiComponent(component_dir(foo))),
        resolve_spec(root, use_debug, t) matches Ok(r) ==>
            r.artifact == path_join(root, artifact_rel(component_dir(foo), use_debug, r.name)),
        chose(
            resolve_spec(root, use_debug, t),
            workspace_binaries_at(t.entries@, component_dir(foo))[0],
            path_join(root, artifact_rel(component_dir(foo), use_debug,
                workspace_binaries_at(t.entries@, component_dir(foo))[0])),
        ),
{
}

/// Resolving an unchanged project twice gives the same outcome: the result is
/// a function of the configuration and the snapshot alone.
pub proof fn resolution_is_repeatable(root: Seq<char>, use_debug: bool, t: ProjectTree,
    r1: Result<crate::validator::ValidationResult, crate::error::InstallError>,
    r2: Result<crate::validator::ValidationResult, crate::error::InstallError>)
    requires
        outcome_view(r1) == resolve_spec(root, use_debug, t),
        outcome_view(r2) == resolve_spec(root, use_debug, t),
    ensures
        outcome_view(r1) == outcome_view(r2),
{
}

} // verus!
