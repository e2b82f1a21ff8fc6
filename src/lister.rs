//! Listing installed binaries: the sort orders and the order they impose.

use vstd::prelude::*;
use crate::config::{join_path, destination_dir_spec, opt_view, opt_str_view, INSTALL_SUBDIR};
use crate::error::{InstallError, InstallErrorView};
use crate::tree::same_text;
use core::cmp::Ordering;

verus! {

/// The order in which installed binaries are listed.
#[derive(Debug, Clone, Copy, PartialEq, Eq, Structural)]
pub enum SortOrder {
    /// Alphabetically by name.
    Name,
    /// Least recently modified first.
    Oldest,
    /// Most recently modified first.
    Newest,
}

/// A sort order that was not recognised, as it was written.
#[derive(Debug, Clone)]
pub struct InvalidSortOrder(pub String);

impl InvalidSortOrder {
    /// The text shown for this error.
    pub fn message(&self) -> (r: String)
        ensures
            r@ == "Invalid sort order '"@ + self.0@ + "'. Valid options are: name, oldest, newest"@,
    {
        let mut s = String::from_str("Invalid sort order '");
        s.append(self.0.as_str());
        s.append("'. Valid options are: name, oldest, newest");
        s
    }
}

/// The lower-case form of a text, as Unicode defines it.
pub uninterp spec fn lower_of(s: Seq<char>) -> Seq<char>;

/// Relies on `str::to_lowercase`: the lower-case mapping of each character;
/// the result depends on the characters alone.
#[verifier::external_body]
pub(crate) fn lowercase(s: &str) -> (r: String)
    ensures
        r@ == lower_of(s@),
{
    s.to_lowercase()
}

/// The sort order named by the already lower-cased text `lowered`.
pub open spec fn sort_order_named(lowered: Seq<char>) -> Option<SortOrder> {
    if lowered == "name"@ {
        Some(SortOrder::Name)
    } else if lowered == "oldest"@ {
        Some(SortOrder::Oldest)
    } else if lowered == "newest"@ {
        Some(SortOrder::Newest)
    } else {
        None
    }
}

impl SortOrder {
    /// The sort order named by `lowered`, the lower-cased form of `written`;
    /// an unknown name gives back `written` in the error.
    pub fn from_lowered(lowered: &str, written: &str) -> (r: Result<SortOrder, InvalidSortOrder>)
        ensures
            match r {
                Ok(o) => sort_order_named(lowered@) == Some(o),
                Err(e) => sort_order_named(lowered@) is None && e.0@ == written@,
            },
    {
        if same_text(lowered, "name") {
            Ok(SortOrder::Name)
        } else if same_text(lowered, "oldest") {
            Ok(SortOrder::Oldest)
        } else if same_text(lowered, "newest") {
            Ok(SortOrder::Newest)
        } else {
            Err(InvalidSortOrder(String::from_str(written)))
        }
    }

    /// The sort order named by `s`, in any case.
    pub fn parse(s: &str) -> (r: Result<SortOrder, InvalidSortOrder>)
        ensures
            match r {
                Ok(o) => sort_order_named(lower_of(s@)) == Some(o),
                Err(e) => sort_order_named(lower_of(s@)) is None && e.0@ == s@,
            },
    {
        let lowered = lowercase(s);
        SortOrder::from_lowered(lowered.as_str(), s)
    }
}

impl core::str::FromStr for SortOrder {
    type Err = InvalidSortOrder;

    fn from_str(s: &str) -> Result<SortOrder, InvalidSortOrder> {
        SortOrder::parse(s)
    }
}

/// An installed binary: its file name and its modification time in seconds
/// since the epoch.
#[derive(Debug)]
pub struct BinaryInfo {
    pub name: String,
    pub modified: u64,
}

/// The lexicographic order of texts, character by character.
pub open spec fn text_cmp(a: Seq<char>, b: Seq<char>) -> Ordering
    decreases a.len(),
{
    if a.len() == 0 {
        if b.len() == 0 { Ordering::Equal } else { Ordering::Less }
    } else if b.len() == 0 {
        Ordering::Greater
    } else if (a[0] as u32) < (b[0] as u32) {
        Ordering::Less
    } else if (a[0] as u32) > (b[0] as u32) {
        Ordering::Greater
    } else {
        text_cmp(a.drop_first(), b.drop_first())
    }
}

pub open spec fn int_cmp(a: u64, b: u64) -> Ordering {
    if a < b { Ordering::Less } else if a > b { Ordering::Greater } else { Ordering::Equal }
}

/// How two binaries compare under a sort order.
pub open spec fn order_cmp(order: SortOrder, a: BinaryInfo, b: BinaryInfo) -> Ordering {
    match order {
        SortOrder::Name => text_cmp(a.name@, b.name@),
        SortOrder::Oldest => int_cmp(a.modified, b.modified),
        SortOrder::Newest => int_cmp(b.modified, a.modified),
    }
}

/// Whether `s` is sorted under `order`.
pub open spec fn sorted_by(order: SortOrder, s: Seq<BinaryInfo>) -> bool {
    forall|i: int, j: int| 0 <= i < j < s.len() ==> order_cmp(order, s[i], s[j]) != Ordering::Greater
}

/// Whether `new` is `old` stably sorted under `order`: `new[k]` is
/// `old[p[k]]` for a permutation `p`, `new` is sorted, and items that compare
/// equal keep their relative order.
pub open spec fn stable_sort_of(order: SortOrder, new: Seq<BinaryInfo>, old: Seq<BinaryInfo>) -> bool {
    &&& new.len() == old.len()
    &&& new.to_multiset() == old.to_multiset()
    &&& sorted_by(order, new)
    &&& exists|p: Seq<int>| {
        &&& p.len() == new.len()
        &&& forall|k: int| 0 <= k < p.len() ==> 0 <= #[trigger] p[k] < old.len() && new[k] == old[p[k]]
        &&& forall|i: int, j: int| 0 <= i < j < p.len() ==> p[i] != p[j]
        &&& forall|i: int, j: int| 0 <= i < j < p.len()
            && order_cmp(order, new[i], new[j]) == Ordering::Equal ==> p[i] < p[j]
    }
}

/// Compares two texts lexicographically, character by character.
pub fn compare_text(a: &str, b: &str) -> (r: Ordering)
    ensures
        r == text_cmp(a@, b@),
{
    let n = a.unicode_len();
    let m = b.unicode_len();
    let mut i: usize = 0;
    assert(a@.subrange(0, n as int) =~= a@);
    assert(b@.subrange(0, m as int) =~= b@);
    while i < n && i < m
        invariant
            n == a@.len(),
            m == b@.len(),
            0 <= i <= n,
            i <= m,
            text_cmp(a@, b@) == text_cmp(a@.subrange(i as int, n as int), b@.subrange(i as int, m as int)),
        decreases n - i,
    {
        let x = a.get_char(i);
        let y = b.get_char(i);
        let ghost sa = a@.subrange(i as int, n as int);
        let ghost sb = b@.subrange(i as int, m as int);
        assert(sa[0] == x && sb[0] == y);
        assert(sa.drop_first() =~= a@.subrange(i + 1, n as int));
        assert(sb.drop_first() =~= b@.subrange(i + 1, m as int));
        if (x as u32) < (y as u32) {
            return Ordering::Less;
        }
        if (x as u32) > (y as u32) {
            return Ordering::Greater;
        }
        i = i + 1;
    }
    if i == n {
        if i == m { Ordering::Equal } else { Ordering::Less }
    } else {
        Ordering::Greater
    }
}

/// How two binaries compare under a sort order.
pub fn compare_binaries(order: SortOrder, a: &BinaryInfo, b: &BinaryInfo) -> (r: Ordering)
    ensures
        r == order_cmp(order, *a, *b),
{
    match order {
        SortOrder::Name => compare_text(a.name.as_str(), b.name.as_str()),
        SortOrder::Oldest => {
            if a.modified < b.modified { Ordering::Less } else if a.modified > b.modified { Ordering::Greater } else { Ordering::Equal }
        },
        SortOrder::Newest => {
            if b.modified < a.modified { Ordering::Less } else if b.modified > a.modified { Ordering::Greater } else { Ordering::Equal }
        },
    }
}

/// Relies on `slice::sort_by`, a stable sort: it keeps the items, orders them
/// by the comparison (here a total order), and does not reorder equal ones.
#[verifier::external_body]
fn sort_by_order(v: &mut Vec<BinaryInfo>, order: SortOrder)
    ensures
        stable_sort_of(order, final(v)@, old(v)@),
{
    v.sort_by(|a, b| compare_binaries(order, a, b))
}

/// Lists installed binaries in a chosen order.
pub struct Lister {
    pub test_dir: Option<String>,
    pub sort_order: SortOrder,
}

impl Lister {
    pub fn new(test_dir: Option<String>, sort_order: SortOrder) -> (r: Self)
        ensures
            r.test_dir == test_dir,
            r.sort_order == sort_order,
    {
        Lister { test_dir, sort_order }
    }

    /// The directory the binaries are installed in: the test directory, else
    /// one below `home`.
    pub fn destination_dir(&self, home: Option<&str>) -> (r: Result<String, InstallError>)
        ensures
            match r {
                Ok(d) => destination_dir_spec(opt_view(self.test_dir), opt_str_view(home)) == Ok::<Seq<char>, ()>(d@),
                Err(e) => destination_dir_spec(opt_view(self.test_dir), opt_str_view(home)) is Err
                    && e@ == InstallErrorView::HomeNotFound,
            },
    {
        match &self.test_dir {
            Some(d) => Ok(d.clone()),
            None => match home {
                Some(h) => Ok(join_path(h, INSTALL_SUBDIR)),
                None => Err(InstallError::HomeNotFound),
            },
        }
    }

    /// Puts `binaries` in this lister's order.
    pub fn sort_binaries(&self, binaries: &mut Vec<BinaryInfo>)
        ensures
            stable_sort_of(self.sort_order, final(binaries)@, old(binaries)@),
    {
        sort_by_order(binaries, self.sort_order)
    }

    /// The names of the installed `binaries`, in this lister's order; fails
    /// where the installation directory does not exist.
    pub fn list(&self, install_dir: &str, dir_exists: bool, binaries: Vec<BinaryInfo>) -> (r: Result<Vec<BinaryInfo>, InstallError>)
        ensures
            match r {
                Ok(v) => dir_exists && stable_sort_of(self.sort_order, v@, binaries@),
                Err(e) => !dir_exists && e@ == InstallErrorView::InstallDirNotFound(install_dir@),
            },
    {
        if !dir_exists {
            return Err(InstallError::InstallDirNotFound(String::from_str(install_dir)));
        }
        let mut v = binaries;
        self.sort_binaries(&mut v);
        Ok(v)
    }
}

} // verus!
