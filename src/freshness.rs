//! Whether a compiled artifact is older than the sources it was built from.

use vstd::prelude::*;
use crate::tree::{FsEntry, below, below_start, matches_at};

verus! {

/// The build-output directory, whose contents are never sources.
pub const BUILD_DIR: &'static str = "target";

/// The extension of a source file, with its dot.
pub const SOURCE_EXT: &'static str = ".rs";

/// Whether the relative path `r` has a component equal to `c`.
pub open spec fn has_component(r: Seq<char>, c: Seq<char>) -> bool {
    exists|i: int| component_at(r, c, i)
}

/// Whether a component of `r` equal to `c` starts at position `i`.
pub open spec fn component_at(r: Seq<char>, c: Seq<char>, i: int) -> bool {
    &&& 0 <= i
    &&& i + c.len() <= r.len()
    &&& r.subrange(i, i + c.len()) == c
    &&& (i == 0 || r[i - 1] == '/')
    &&& (i + c.len() == r.len() || r[i + c.len()] == '/')
}

/// Whether the last component of `r` has the source extension, with a
/// non-empty stem.
pub open spec fn is_source_name(r: Seq<char>) -> bool {
    &&& r.len() > SOURCE_EXT@.len()
    &&& r.subrange(r.len() - SOURCE_EXT@.len(), r.len() as int) == SOURCE_EXT@
    &&& r[r.len() - SOURCE_EXT@.len() - 1] != '/'
}

/// Whether `e` is a source file below the source root `s`, outside every
/// build-output directory.
pub open spec fn is_source_file(e: FsEntry, s: Seq<char>) -> bool {
    &&& !e.is_dir
    &&& match below(e.path@, s) {
        Some(r) => !has_component(r, BUILD_DIR@) && is_source_name(r),
        None => false,
    }
}

/// Whether `e` is a source file below `s` modified strictly after `t`.
pub open spec fn newer_source(e: FsEntry, s: Seq<char>, t: u64) -> bool {
    &&& is_source_file(e, s)
    &&& match e.modified {
        Some(m) => m > t,
        None => false,
    }
}

/// Whether some source file below `s` was modified strictly after `t`, that is,
/// whether the newest source time exceeds `t`.
pub open spec fn outdated(es: Seq<FsEntry>, s: Seq<char>, t: u64) -> bool {
    exists|i: int| 0 <= i < es.len() && newer_source(es[i], s, t)
}

/// Whether the part of `p` from position `k` on has a component equal to `c`.
fn has_component_from(p: &str, k: usize, c: &str) -> (r: bool)
    requires
        k <= p@.len(),
        c@.len() > 0,
    ensures
        r == has_component(p@.subrange(k as int, p@.len() as int), c@),
{
    let n = p.unicode_len();
    let m = c.unicode_len();
    let ghost rr = p@.subrange(k as int, n as int);
    if m > n - k {
        assert forall|i: int| !component_at(rr, c@, i) by {}
        return false;
    }
    let mut j: usize = 0;
    while j <= n - k - m
        invariant
            n == p@.len(),
            m == c@.len(),
            m > 0,
            k <= n,
            m <= n - k,
            j <= n - k - m + 1,
            rr == p@.subrange(k as int, n as int),
            forall|i: int| 0 <= i < j ==> !component_at(rr, c@, i),
        decreases n - k - j,
    {
        let at = matches_at(p, k + j, c);
        let starts = j == 0 || p.get_char(k + j - 1) == '/';
        let ends = j + m == n - k || p.get_char(k + j + m) == '/';
        assert(rr.subrange(j as int, j + m) =~= p@.subrange(k + j, k + j + m));
        if at && starts && ends {
            assert(component_at(rr, c@, j as int));
            return true;
        }
        j = j + 1;
    }
    assert forall|i: int| !component_at(rr, c@, i) by {}
    false
}

/// Whether the part of `p` from position `k` on is a source file name.
fn is_source_name_from(p: &str, k: usize) -> (r: bool)
    requires
        k <= p@.len(),
    ensures
        r == is_source_name(p@.subrange(k as int, p@.len() as int)),
{
    proof {
        reveal_strlit(".rs");
    }
    let n = p.unicode_len();
    let ghost rr = p@.subrange(k as int, n as int);
    if n - k <= 3 {
        return false;
    }
    let ext = matches_at(p, n - 3, SOURCE_EXT);
    assert(rr.subrange(rr.len() - 3, rr.len() as int) =~= p@.subrange(n - 3, n as int));
    ext && p.get_char(n - 4) != '/'
}

/// Whether `e` is a source file below the source root `s`.
pub fn source_file(e: &FsEntry, s: &str) -> (r: bool)
    ensures
        r == is_source_file(*e, s@),
{
    proof {
        reveal_strlit("target");
    }
    if e.is_dir {
        return false;
    }
    match below_start(e.path.as_str(), s) {
        Some(k) => !has_component_from(e.path.as_str(), k, BUILD_DIR)
            && is_source_name_from(e.path.as_str(), k),
        None => false,
    }
}

/// Whether some source file below `s` was modified strictly after `t`.
pub fn is_outdated(es: &Vec<FsEntry>, s: &str, t: u64) -> (r: bool)
    ensures
        r == outdated(es@, s@, t),
{
    let mut i: usize = 0;
    while i < es.len()
        invariant
            0 <= i <= es@.len(),
            forall|j: int| 0 <= j < i ==> !newer_source(#[trigger] es@[j], s@, t),
        decreases es@.len() - i,
    {
        if source_file(&es[i], s) {
            match es[i].modified {
                Some(m) => {
                    if m > t {
                        assert(newer_source(es@[i as int], s@, t));
                        return true;
                    }
                },
                None => {},
            }
        }
        i = i + 1;
    }
    false
}

} // verus!
