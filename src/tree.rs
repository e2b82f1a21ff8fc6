//! A snapshot of a project directory as plain values, and the path lookups the
//! resolver makes in it.
//!
//! Paths are relative to the project root, with `/` between components, no
//! leading or trailing `/` and no empty component; the root itself is the empty
//! path. Entries stand in the order in which the directories were enumerated.

use vstd::prelude::*;
use crate::manifest::{TomlValue, toml_document, parse_toml};

verus! {

/// The file name of a manifest.
pub const MANIFEST_FILE: &'static str = "Cargo.toml";

/// One file or directory of the snapshot.
#[derive(Debug)]
pub struct FsEntry {
    /// Path relative to the project root.
    pub path: String,
    pub is_dir: bool,
    /// Modification time in nanoseconds since the Unix epoch, where it could be read.
    pub modified: Option<u64>,
    /// The text of a manifest file, where it could be read.
    pub text: Option<String>,
}

/// A project directory as it stood when it was read.
#[derive(Debug)]
pub struct ProjectTree {
    /// Whether the project path exists.
    pub exists: bool,
    /// Whether the project path is a directory.
    pub is_dir: bool,
    /// Every file and directory below the project path.
    pub entries: Vec<FsEntry>,
}

pub open spec fn no_slash(s: Seq<char>) -> bool {
    forall|i: int| 0 <= i < s.len() ==> s[i] != '/'
}

/// `b` below the relative directory `a`.
pub open spec fn rel_join(a: Seq<char>, b: Seq<char>) -> Seq<char> {
    if a.len() == 0 {
        b
    } else {
        a + seq!['/'] + b
    }
}

/// The directory stack after one more path component: an empty component or
/// `.` stays, `..` steps up (and leaves the project from its root, `None`),
/// any other name steps down.
pub open spec fn apply_component(st: Option<Seq<Seq<char>>>, comp: Seq<char>) -> Option<Seq<Seq<char>>> {
    match st {
        None => None,
        Some(s) => if comp.len() == 0 || comp == "."@ {
            Some(s)
        } else if comp == ".."@ {
            if s.len() == 0 { None } else { Some(s.drop_last()) }
        } else {
            Some(s.push(comp))
        },
    }
}

/// Reading `p` from the left: the stack of the completed components, and the
/// component being read.
pub open spec fn scan_path(p: Seq<char>) -> (Option<Seq<Seq<char>>>, Seq<char>)
    decreases p.len(),
{
    if p.len() == 0 {
        (Some(Seq::empty()), Seq::empty())
    } else {
        let (st, cur) = scan_path(p.drop_last());
        if p.last() == '/' {
            (apply_component(st, cur), Seq::empty())
        } else {
            (st, cur.push(p.last()))
        }
    }
}

/// The components `/` separates.
pub open spec fn join_components(cs: Seq<Seq<char>>) -> Seq<char>
    decreases cs.len(),
{
    if cs.len() == 0 {
        Seq::empty()
    } else if cs.len() == 1 {
        cs[0]
    } else {
        join_components(cs.drop_last()) + seq!['/'] + cs.last()
    }
}

/// The relative path `p` in normal form: without empty or `.` components and
/// with each `..` resolved; `None` where it leads out of the project.
pub open spec fn normalize_path(p: Seq<char>) -> Option<Seq<char>> {
    let (st, cur) = scan_path(p);
    match apply_component(st, cur) {
        Some(cs) => Some(join_components(cs)),
        None => None,
    }
}

/// The part of `p` below the directory `d`, where `p` lies strictly below it.
pub open spec fn below(p: Seq<char>, d: Seq<char>) -> Option<Seq<char>> {
    if d.len() == 0 {
        if p.len() > 0 { Some(p) } else { None }
    } else if p.len() > d.len() + 1 && p.subrange(0, d.len() as int) == d && p[d.len() as int] == '/' {
        Some(p.subrange(d.len() + 1 as int, p.len() as int))
    } else {
        None
    }
}

/// The name of `p` where `p` is an immediate child of the directory `d`.
pub open spec fn child_name(p: Seq<char>, d: Seq<char>) -> Option<Seq<char>> {
    match below(p, d) {
        Some(r) if no_slash(r) => Some(r),
        _ => None,
    }
}

/// The first entry whose path is `p`.
pub open spec fn find_entry(es: Seq<FsEntry>, p: Seq<char>) -> Option<FsEntry>
    decreases es.len(),
{
    if es.len() == 0 {
        None
    } else if es[0].path@ == p {
        Some(es[0])
    } else {
        find_entry(es.drop_first(), p)
    }
}

pub open spec fn exists_at(es: Seq<FsEntry>, p: Seq<char>) -> bool {
    find_entry(es, p) is Some
}

/// The parsed manifest of the directory `d`, where it is a readable file of
/// valid TOML.
pub open spec fn manifest_at(es: Seq<FsEntry>, d: Seq<char>) -> Option<TomlValue> {
    match find_entry(es, rel_join(d, MANIFEST_FILE@)) {
        Some(e) => if e.is_dir {
            None
        } else {
            match e.text {
                Some(t) => toml_document(t@),
                None => None,
            }
        },
        None => None,
    }
}

/// The names of the subdirectories of `d`, in enumeration order.
pub open spec fn child_dirs(es: Seq<FsEntry>, d: Seq<char>) -> Seq<Seq<char>>
    decreases es.len(),
{
    if es.len() == 0 {
        Seq::empty()
    } else {
        let rest = child_dirs(es.drop_last(), d);
        let e = es.last();
        match child_name(e.path@, d) {
            Some(n) if e.is_dir => rest.push(n),
            _ => rest,
        }
    }
}

/// Whether `s` holds `lit` at position `i`.
pub fn matches_at(s: &str, i: usize, lit: &str) -> (r: bool)
    ensures
        r == (i + lit@.len() <= s@.len() && s@.subrange(i as int, i + lit@.len()) == lit@),
{
    let n = s.unicode_len();
    let m = lit.unicode_len();
    if i > n || m > n - i {
        return false;
    }
    let mut j: usize = 0;
    while j < m
        invariant
            n == s@.len(),
            m == lit@.len(),
            i + m <= n,
            0 <= j <= m,
            forall|k: int| 0 <= k < j ==> s@[i + k] == lit@[k],
        decreases m - j,
    {
        if s.get_char(i + j) != lit.get_char(j) {
            assert(s@.subrange(i as int, i + m)[j as int] != lit@[j as int]);
            return false;
        }
        j = j + 1;
    }
    assert(s@.subrange(i as int, i + m) =~= lit@);
    true
}

/// Whether `a` and `b` hold the same text.
pub fn same_text(a: &str, b: &str) -> (r: bool)
    ensures
        r == (a@ == b@),
{
    if a.unicode_len() != b.unicode_len() {
        return false;
    }
    let r = matches_at(a, 0, b);
    assert(a@.subrange(0, b@.len() as int) =~= a@);
    r
}

/// `b` below the relative directory `a`.
pub fn rel_path(a: &str, b: &str) -> (r: String)
    ensures
        r@ == rel_join(a@, b@),
{
    if a.unicode_len() == 0 {
        String::from_str(b)
    } else {
        let mut r = String::from_str(a);
        r.append("/");
        r.append(b);
        proof {
            reveal_strlit("/");
        }
        assert(r@ =~= rel_join(a@, b@));
        r
    }
}

/// A path that leaves the project within its first `k` characters leaves it.
proof fn scan_stays_out(p: Seq<char>, k: int)
    requires
        0 <= k <= p.len(),
        scan_path(p.subrange(0, k)).0 is None,
    ensures
        scan_path(p).0 is None,
    decreases p.len(),
{
    if p.len() == k {
        assert(p.subrange(0, k) =~= p);
    } else {
        assert(p.drop_last().subrange(0, k) =~= p.subrange(0, k));
        scan_stays_out(p.drop_last(), k);
    }
}

/// Adds the component `comp` to the directory stack (see `apply_component`);
/// false where it leads out of the project.
fn push_component(stack: &mut Vec<String>, comp: &str) -> (ok: bool)
    ensures
        match apply_component(Some(old(stack)@.map_values(|s: String| s@)), comp@) {
            Some(cs) => ok && final(stack)@.map_values(|s: String| s@) == cs,
            None => !ok,
        },
{
    proof {
        reveal_strlit(".");
        reveal_strlit("..");
    }
    let ghost prev = stack@;
    if comp.unicode_len() == 0 || same_text(comp, ".") {
        return true;
    }
    if same_text(comp, "..") {
        if stack.len() == 0 {
            return false;
        }
        stack.pop();
        assert(stack@.map_values(|s: String| s@) =~= prev.map_values(|s: String| s@).drop_last());
        return true;
    }
    stack.push(String::from_str(comp));
    assert(stack@.map_values(|s: String| s@) =~= prev.map_values(|s: String| s@).push(comp@));
    true
}

/// The components `/` separates.
fn join_all(cs: &Vec<String>) -> (r: String)
    ensures
        r@ == join_components(cs@.map_values(|s: String| s@)),
{
    let ghost vs = cs@.map_values(|s: String| s@);
    let mut r = String::new();
    let mut i: usize = 0;
    while i < cs.len()
        invariant
            0 <= i <= cs@.len(),
            vs == cs@.map_values(|s: String| s@),
            r@ == join_components(vs.subrange(0, i as int)),
        decreases cs@.len() - i,
    {
        assert(vs.subrange(0, i + 1).drop_last() =~= vs.subrange(0, i as int));
        assert(vs.subrange(0, i + 1).last() == cs@[i as int]@);
        if i > 0 {
            r.append("/");
            proof {
                reveal_strlit("/");
            }
        } else {
            assert(join_components(vs.subrange(0, 0)) =~= Seq::<char>::empty());
        }
        r.append(cs[i].as_str());
        assert(r@ =~= join_components(vs.subrange(0, i + 1)));
        i = i + 1;
    }
    assert(vs.subrange(0, cs@.len() as int) =~= vs);
    r
}

/// The relative path `p` in normal form; `None` where it leads out of the
/// project.
pub fn normalize(p: &str) -> (r: Option<String>)
    ensures
        match r {
            Some(n) => normalize_path(p@) == Some(n@),
            None => normalize_path(p@) is None,
        },
{
    let n = p.unicode_len();
    let mut stack: Vec<String> = Vec::new();
    let mut start: usize = 0;
    let mut i: usize = 0;
    assert(stack@.map_values(|s: String| s@) =~= Seq::<Seq<char>>::empty());
    assert(p@.subrange(0, 0) =~= Seq::<char>::empty());
    while i < n
        invariant
            n == p@.len(),
            0 <= start <= i <= n,
            scan_path(p@.subrange(0, i as int))
                == (Some(stack@.map_values(|s: String| s@)), p@.subrange(start as int, i as int)),
        decreases n - i,
    {
        let c = p.get_char(i);
        assert(p@.subrange(0, i + 1).drop_last() =~= p@.subrange(0, i as int));
        assert(p@.subrange(0, i + 1).last() == c);
        if c == '/' {
            let comp = p.substring_char(start, i);
            if !push_component(&mut stack, comp) {
                proof {
                    scan_stays_out(p@, i + 1);
                }
                return None;
            }
            start = i + 1;
            assert(p@.subrange(start as int, i + 1) =~= Seq::<char>::empty());
        } else {
            assert(p@.subrange(start as int, i + 1) =~= p@.subrange(start as int, i as int).push(c));
        }
        i = i + 1;
    }
    assert(p@.subrange(0, n as int) =~= p@);
    let last = p.substring_char(start, n);
    if !push_component(&mut stack, last) {
        return None;
    }
    Some(join_all(&stack))
}

/// The position where the part of `p` below `d` starts, where `p` lies strictly
/// below `d`.
pub fn below_start(p: &str, d: &str) -> (r: Option<usize>)
    ensures
        match r {
            Some(k) => below(p@, d@) == Some(p@.subrange(k as int, p@.len() as int)) && k <= p@.len(),
            None => below(p@, d@) is None,
        },
{
    let n = p.unicode_len();
    let m = d.unicode_len();
    if m == 0 {
        if n > 0 {
            assert(p@.subrange(0, n as int) =~= p@);
            return Some(0);
        }
        return None;
    }
    if n <= m || n - m <= 1 {
        return None;
    }
    if !matches_at(p, 0, d) {
        return None;
    }
    if p.get_char(m) != '/' {
        return None;
    }
    Some(m + 1)
}

/// Whether `s` has no `/` from position `k` on.
fn no_slash_from(s: &str, k: usize) -> (r: bool)
    requires
        k <= s@.len(),
    ensures
        r == no_slash(s@.subrange(k as int, s@.len() as int)),
{
    let n = s.unicode_len();
    let mut i: usize = k;
    while i < n
        invariant
            n == s@.len(),
            k <= i <= n,
            forall|j: int| k <= j < i ==> s@[j] != '/',
        decreases n - i,
    {
        if s.get_char(i) == '/' {
            assert(s@.subrange(k as int, n as int)[i - k] == '/');
            return false;
        }
        i = i + 1;
    }
    assert forall|j: int| 0 <= j < s@.subrange(k as int, n as int).len() implies
        s@.subrange(k as int, n as int)[j] != '/' by {
        assert(s@.subrange(k as int, n as int)[j] == s@[k + j]);
    }
    true
}

/// The name of `p` where it is an immediate child of the directory `d`.
pub fn get_child_name(p: &str, d: &str) -> (r: Option<String>)
    ensures
        match r {
            Some(n) => child_name(p@, d@) == Some(n@),
            None => child_name(p@, d@) is None,
        },
{
    match below_start(p, d) {
        Some(k) => {
            if no_slash_from(p, k) {
                let n = p.unicode_len();
                Some(String::from_str(p.substring_char(k, n)))
            } else {
                None
            }
        },
        None => None,
    }
}

/// The first entry whose path is `p`.
pub fn lookup_entry<'a>(es: &'a Vec<FsEntry>, p: &str) -> (r: Option<&'a FsEntry>)
    ensures
        match r {
            Some(e) => find_entry(es@, p@) == Some(*e),
            None => find_entry(es@, p@) is None,
        },
{
    let mut i: usize = 0;
    assert(es@.subrange(0, es@.len() as int) =~= es@);
    while i < es.len()
        invariant
            0 <= i <= es@.len(),
            find_entry(es@, p@) == find_entry(es@.subrange(i as int, es@.len() as int), p@),
        decreases es@.len() - i,
    {
        assert(es@.subrange(i as int, es@.len() as int).drop_first()
            =~= es@.subrange(i + 1, es@.len() as int));
        if es[i].path.as_str().unicode_len() == p.unicode_len() && matches_at(es[i].path.as_str(), 0, p) {
            assert(p@.subrange(0, p@.len() as int) =~= p@);
            assert(es@[i as int].path@ =~= p@);
            assert(es@.subrange(i as int, es@.len() as int)[0] == es@[i as int]);
            return Some(&es[i]);
        }
        proof {
            if es@[i as int].path@ == p@ {
                assert(es@[i as int].path@.subrange(0, p@.len() as int) =~= p@);
            }
        }
        assert(es@.subrange(i as int, es@.len() as int)[0] == es@[i as int]);
        i = i + 1;
    }
    None
}

/// Whether the snapshot holds the path `p`.
pub fn path_exists(es: &Vec<FsEntry>, p: &str) -> (r: bool)
    ensures
        r == exists_at(es@, p@),
{
    lookup_entry(es, p).is_some()
}

/// The parsed manifest of the directory `d`, where it is a readable file of
/// valid TOML.
pub fn read_manifest(es: &Vec<FsEntry>, d: &str) -> (r: Option<TomlValue>)
    ensures
        r == manifest_at(es@, d@),
{
    let p = rel_path(d, MANIFEST_FILE);
    match lookup_entry(es, p.as_str()) {
        Some(e) => {
            if e.is_dir {
                return None;
            }
            match &e.text {
                Some(t) => parse_toml(t.as_str()),
                None => None,
            }
        },
        None => None,
    }
}

/// The names of the subdirectories of `d`, in enumeration order.
pub fn list_child_dirs(es: &Vec<FsEntry>, d: &str) -> (r: Vec<String>)
    ensures
        r@.map_values(|s: String| s@) == child_dirs(es@, d@),
{
    let mut out: Vec<String> = Vec::new();
    let mut i: usize = 0;
    while i < es.len()
        invariant
            0 <= i <= es@.len(),
            out@.map_values(|s: String| s@) == child_dirs(es@.subrange(0, i as int), d@),
        decreases es@.len() - i,
    {
        assert(es@.subrange(0, i + 1).drop_last() =~= es@.subrange(0, i as int));
        if es[i].is_dir {
            if let Some(n) = get_child_name(es[i].path.as_str(), d) {
                out.push(n);
            }
        }
        assert(out@.map_values(|s: String| s@) =~= child_dirs(es@.subrange(0, i + 1), d@));
        i = i + 1;
    }
    assert(es@.subrange(0, es@.len() as int) =~= es@);
    out
}

} // verus!
