//! Workspace members: expanding member patterns and collecting the binaries
//! that the members offer.

use vstd::prelude::*;
use crate::manifest::{TomlValue, member_binaries_spec, member_binaries};
use crate::tree::{
    FsEntry, rel_join, manifest_at, exists_at, child_dirs, matches_at, rel_path, read_manifest,
    path_exists, list_child_dirs, normalize_path, normalize,
};

verus! {

/// The entry-point source file whose presence makes a package a binary.
pub const ENTRY_POINT: &'static str = "src/main.rs";

/// The suffix that makes a member pattern stand for every subdirectory of its base.
pub const WILDCARD: &'static str = "/*";

pub open spec fn is_wildcard(pattern: Seq<char>) -> bool {
    pattern.len() >= 2 && pattern.subrange(pattern.len() - 2, pattern.len() as int) == WILDCARD@
}

/// The base directory of a wildcard pattern.
pub open spec fn wildcard_base(pattern: Seq<char>) -> Seq<char> {
    pattern.subrange(0, pattern.len() - 2)
}

/// The member paths that a pattern stands for in the workspace `w`: a literal
/// path stands for itself; a wildcard for each subdirectory of its base, in
/// enumeration order (none where the base is no directory or lies outside the
/// project).
pub open spec fn expand_member(es: Seq<FsEntry>, w: Seq<char>, pattern: Seq<char>) -> Seq<Seq<char>> {
    if is_wildcard(pattern) {
        let base = wildcard_base(pattern);
        match normalize_path(rel_join(w, base)) {
            Some(d) => child_dirs(es, d).map_values(|n: Seq<char>| rel_join(base, n)),
            None => Seq::empty(),
        }
    } else {
        seq![pattern]
    }
}

/// The binaries of the member at path `m` of the workspace `w` (the path taken
/// in normal form); none where it lies outside the project or its manifest is
/// missing, unreadable or malformed.
pub open spec fn member_candidates(es: Seq<FsEntry>, w: Seq<char>, m: Seq<char>) -> Seq<Seq<char>> {
    match normalize_path(rel_join(w, m)) {
        Some(dir) => match manifest_at(es, dir) {
            Some(v) => member_binaries_spec(v, exists_at(es, rel_join(dir, ENTRY_POINT@))),
            None => Seq::empty(),
        },
        None => Seq::empty(),
    }
}

/// The binaries of the members at `paths`, member after member.
pub open spec fn paths_candidates(es: Seq<FsEntry>, w: Seq<char>, paths: Seq<Seq<char>>) -> Seq<Seq<char>>
    decreases paths.len(),
{
    if paths.len() == 0 {
        Seq::empty()
    } else {
        paths_candidates(es, w, paths.drop_last()) + member_candidates(es, w, paths.last())
    }
}

/// The binaries that one declared member pattern contributes; a pattern that is
/// not a string contributes none.
pub open spec fn pattern_candidates(es: Seq<FsEntry>, w: Seq<char>, pattern: TomlValue) -> Seq<Seq<char>> {
    match pattern {
        TomlValue::Str(s) => paths_candidates(es, w, expand_member(es, w, s@)),
        _ => Seq::empty(),
    }
}

/// The binary candidates of the workspace `w`, in declaration order.
pub open spec fn workspace_candidates(es: Seq<FsEntry>, w: Seq<char>, members: Seq<TomlValue>) -> Seq<Seq<char>>
    decreases members.len(),
{
    if members.len() == 0 {
        Seq::empty()
    } else {
        workspace_candidates(es, w, members.drop_last()) + pattern_candidates(es, w, members.last())
    }
}

/// Appends `xs` to `out`.
fn append_names(out: &mut Vec<String>, xs: Vec<String>)
    ensures
        final(out)@.map_values(|s: String| s@)
            == old(out)@.map_values(|s: String| s@) + xs@.map_values(|s: String| s@),
{
    let ghost start = out@.map_values(|s: String| s@);
    let mut i: usize = 0;
    while i < xs.len()
        invariant
            0 <= i <= xs@.len(),
            out@.map_values(|s: String| s@)
                == start + xs@.subrange(0, i as int).map_values(|s: String| s@),
        decreases xs@.len() - i,
    {
        let x = xs[i].clone();
        let ghost prev = out@;
        out.push(x);
        assert(out@.map_values(|s: String| s@) =~= prev.map_values(|s: String| s@).push(x@));
        assert(xs@.subrange(0, i + 1).map_values(|s: String| s@)
            =~= xs@.subrange(0, i as int).map_values(|s: String| s@).push(xs@[i as int]@));
        assert(out@.map_values(|s: String| s@)
            =~= start + xs@.subrange(0, i + 1).map_values(|s: String| s@));
        i = i + 1;
    }
    assert(xs@.subrange(0, xs@.len() as int) =~= xs@);
}

/// The member paths that a pattern stands for in the workspace `w`.
pub fn expand_member_paths(es: &Vec<FsEntry>, w: &str, pattern: &str) -> (r: Vec<String>)
    ensures
        r@.map_values(|s: String| s@) == expand_member(es@, w@, pattern@),
{
    let n = pattern.unicode_len();
    proof {
        reveal_strlit("/*");
    }
    if n >= 2 && matches_at(pattern, n - 2, WILDCARD) {
        let base = pattern.substring_char(0, n - 2);
        let joined = rel_path(w, base);
        let dir = match normalize(joined.as_str()) {
            Some(d) => d,
            None => {
                let out: Vec<String> = Vec::new();
                assert(out@.map_values(|s: String| s@) =~= Seq::<Seq<char>>::empty());
                return out;
            },
        };
        let names = list_child_dirs(es, dir.as_str());
        let ghost want = expand_member(es@, w@, pattern@);
        let mut out: Vec<String> = Vec::new();
        let mut i: usize = 0;
        while i < names.len()
            invariant
                0 <= i <= names@.len(),
                base@ == wildcard_base(pattern@),
                is_wildcard(pattern@),
                normalize_path(rel_join(w@, base@)) == Some(dir@),
                names@.map_values(|s: String| s@) == child_dirs(es@, dir@),
                want == child_dirs(es@, dir@).map_values(|x: Seq<char>| rel_join(base@, x)),
                out@.map_values(|s: String| s@) =~= want.subrange(0, i as int),
            decreases names@.len() - i,
        {
            let p = rel_path(base, names[i].as_str());
            let ghost prev = out@;
            out.push(p);
            assert(out@.map_values(|s: String| s@) =~= prev.map_values(|s: String| s@).push(p@));
            assert(names@.map_values(|s: String| s@)[i as int] == names@[i as int]@);
            assert(want[i as int] == rel_join(base@, names@[i as int]@));
            assert(out@.map_values(|s: String| s@) =~= want.subrange(0, i + 1));
            i = i + 1;
        }
        assert(want.subrange(0, names@.len() as int) =~= want);
        out
    } else {
        let mut out: Vec<String> = Vec::new();
        out.push(String::from_str(pattern));
        assert(out@.map_values(|s: String| s@) =~= seq![pattern@]);
        out
    }
}

/// The binaries of the member at path `m` of the workspace `w`.
pub fn extract_binaries_from_member(es: &Vec<FsEntry>, w: &str, m: &str) -> (r: Vec<String>)
    ensures
        r@.map_values(|s: String| s@) == member_candidates(es@, w@, m@),
{
    let joined = rel_path(w, m);
    let dir = match normalize(joined.as_str()) {
        Some(d) => d,
        None => {
            let out: Vec<String> = Vec::new();
            assert(out@.map_values(|s: String| s@) =~= Seq::<Seq<char>>::empty());
            return out;
        },
    };
    match read_manifest(es, dir.as_str()) {
        Some(v) => {
            let main = rel_path(dir.as_str(), ENTRY_POINT);
            let has_main = path_exists(es, main.as_str());
            member_binaries(&v, has_main)
        },
        None => {
            let out: Vec<String> = Vec::new();
            assert(out@.map_values(|s: String| s@) =~= Seq::<Seq<char>>::empty());
            out
        },
    }
}

/// The binary candidates of the workspace `w` with the declared `members`, in
/// declaration order: members in the order declared, the subdirectories of a
/// wildcard in enumeration order, the binaries of a member in its own order.
pub fn find_workspace_binaries(es: &Vec<FsEntry>, w: &str, members: &Vec<TomlValue>) -> (r: Vec<String>)
    ensures
        r@.map_values(|s: String| s@) == workspace_candidates(es@, w@, members@),
{
    let mut out: Vec<String> = Vec::new();
    let mut i: usize = 0;
    while i < members.len()
        invariant
            0 <= i <= members@.len(),
            out@.map_values(|s: String| s@) == workspace_candidates(es@, w@, members@.subrange(0, i as int)),
        decreases members@.len() - i,
    {
        assert(members@.subrange(0, i + 1).drop_last() =~= members@.subrange(0, i as int));
        match &members[i] {
            TomlValue::Str(pattern) => {
                let paths = expand_member_paths(es, w, pattern.as_str());
                let ghost before = out@.map_values(|s: String| s@);
                let mut j: usize = 0;
                while j < paths.len()
                    invariant
                        0 <= j <= paths@.len(),
                        out@.map_values(|s: String| s@)
                            == before + paths_candidates(es@, w@, paths@.map_values(|s: String| s@).subrange(0, j as int)),
                    decreases paths@.len() - j,
                {
                    let names = extract_binaries_from_member(es, w, paths[j].as_str());
                    append_names(&mut out, names);
                    let ghost ps = paths@.map_values(|s: String| s@);
                    assert(ps.subrange(0, j + 1).drop_last() =~= ps.subrange(0, j as int));
                    assert(ps[j as int] == paths@[j as int]@);
                    assert(out@.map_values(|s: String| s@)
                        =~= before + paths_candidates(es@, w@, ps.subrange(0, j + 1)));
                    j = j + 1;
                }
                assert(paths@.map_values(|s: String| s@).subrange(0, paths@.len() as int)
                    =~= paths@.map_values(|s: String| s@));
            },
            _ => {},
        }
        assert(out@.map_values(|s: String| s@)
            =~= workspace_candidates(es@, w@, members@.subrange(0, i + 1)));
        i = i + 1;
    }
    assert(members@.subrange(0, members@.len() as int) =~= members@);
    out
}

} // verus!
