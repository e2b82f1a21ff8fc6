//! Manifest files as plain value trees, and the lookups the resolver makes in them.

use vstd::prelude::*;

verus! {

/// A parsed manifest value. Tables keep their keys unique, as the parser
/// guarantees.
#[derive(Debug)]
pub enum TomlValue {
    Str(String),
    Integer(i64),
    Boolean(bool),
    Array(Vec<TomlValue>),
    Table(Vec<(String, TomlValue)>),
    /// A float or a date-time: the resolver never reads one.
    Other,
}

/// The value tree that the TOML parser builds from a text, or `None` where the
/// text is not valid TOML.
pub uninterp spec fn toml_document(text: Seq<char>) -> Option<TomlValue>;

#[verifier::external_type_specification]
#[verifier::external_body]
pub struct ExTomlValue(toml::Value);

/// Relies on `toml::from_str::<toml::Value>`: parses a whole document; the
/// result depends on the text alone.
#[verifier::external_body]
pub(crate) fn parse_toml(text: &str) -> (r: Option<TomlValue>)
    ensures
        r == toml_document(text@),
{
    match toml::from_str::<toml::Value>(text) {
        Ok(v) => Some(value_from_toml(v)),
        Err(_) => None,
    }
}

/// Turns a `toml::Value` into the library's tree, variant by variant; part of
/// the conversion done by `parse_toml`.
#[verifier::external_body]
fn value_from_toml(v: toml::Value) -> TomlValue {
    match v {
        toml::Value::String(s) => TomlValue::Str(s),
        toml::Value::Integer(i) => TomlValue::Integer(i),
        toml::Value::Boolean(b) => TomlValue::Boolean(b),
        toml::Value::Array(a) => TomlValue::Array(a.into_iter().map(value_from_toml).collect()),
        toml::Value::Table(t) => TomlValue::Table(
            t.into_iter().map(|(k, x)| (k, value_from_toml(x))).collect(),
        ),
        _ => TomlValue::Other,
    }
}

/// The value stored under `key` in a table; `None` for a missing key or a
/// value that is not a table.
pub open spec fn get_spec(v: TomlValue, key: Seq<char>) -> Option<TomlValue> {
    match v {
        TomlValue::Table(entries) => entry_value(entries@, key),
        _ => None,
    }
}

/// The value of the first entry whose key is `key`.
pub open spec fn entry_value(entries: Seq<(String, TomlValue)>, key: Seq<char>) -> Option<TomlValue>
    decreases entries.len(),
{
    if entries.len() == 0 {
        None
    } else if entries[0].0@ == key {
        Some(entries[0].1)
    } else {
        entry_value(entries.drop_first(), key)
    }
}

/// Looks `key` up in a table.
pub fn get<'a>(v: &'a TomlValue, key: &str) -> (r: Option<&'a TomlValue>)
    ensures
        match r {
            Some(x) => get_spec(*v, key@) == Some(*x),
            None => get_spec(*v, key@) is None,
        },
{
    match v {
        TomlValue::Table(entries) => {
            let k = String::from_str(key);
            let mut i: usize = 0;
            assert(entries@.subrange(0, entries@.len() as int) =~= entries@);
            while i < entries.len()
                invariant
                    0 <= i <= entries@.len(),
                    k@ == key@,
                    get_spec(*v, key@) == entry_value(entries@, key@),
                    entry_value(entries@, key@) == entry_value(entries@.subrange(i as int, entries@.len() as int), key@),
                decreases entries@.len() - i,
            {
                assert(entries@.subrange(i as int, entries@.len() as int).drop_first()
                    =~= entries@.subrange(i + 1, entries@.len() as int));
                if entries[i].0 == k {
                    assert(entries@.subrange(i as int, entries@.len() as int)[0] == entries@[i as int]);
                    return Some(&entries[i].1);
                }
                i = i + 1;
            }
            None
        },
        _ => None,
    }
}


/// The text of a string value.
pub open spec fn str_of(v: Option<TomlValue>) -> Option<Seq<char>> {
    match v {
        Some(TomlValue::Str(s)) => Some(s@),
        _ => None,
    }
}

/// The items of an array value.
pub open spec fn array_of(v: Option<TomlValue>) -> Option<Seq<TomlValue>> {
    match v {
        Some(TomlValue::Array(items)) => Some(items@),
        _ => None,
    }
}

/// The `name` of a binary-target entry, where it is a string.
pub open spec fn target_name(entry: TomlValue) -> Option<Seq<char>> {
    str_of(get_spec(entry, "name"@))
}

/// The names of the binary-target entries that carry one, in declared order.
pub open spec fn target_names(entries: Seq<TomlValue>) -> Seq<Seq<char>>
    decreases entries.len(),
{
    if entries.len() == 0 {
        Seq::empty()
    } else {
        let rest = target_names(entries.drop_last());
        match target_name(entries.last()) {
            Some(n) => rest.push(n),
            None => rest,
        }
    }
}

/// The explicit binary-target entries of a manifest (its `bin` array).
pub open spec fn bin_entries(m: TomlValue) -> Option<Seq<TomlValue>> {
    array_of(get_spec(m, "bin"@))
}

/// The package name declared by a manifest.
pub open spec fn package_name(m: TomlValue) -> Option<Seq<char>> {
    match get_spec(m, "package"@) {
        Some(p) => str_of(get_spec(p, "name"@)),
        None => None,
    }
}

/// The binary name of a single-package project: the name of the first explicit
/// binary target, else the package name.
pub open spec fn simple_binary_name_spec(m: TomlValue) -> Option<Seq<char>> {
    match bin_entries(m) {
        Some(bins) if bins.len() > 0 && target_name(bins[0]) is Some => target_name(bins[0]),
        _ => package_name(m),
    }
}

/// The binaries a workspace member offers: its explicit binary targets, else its
/// package name where it has an entry-point source file, else none.
pub open spec fn member_binaries_spec(m: TomlValue, has_entry_point: bool) -> Seq<Seq<char>> {
    match bin_entries(m) {
        Some(bins) if bins.len() > 0 => target_names(bins),
        _ => match package_name(m) {
            Some(n) if has_entry_point => seq![n],
            _ => Seq::empty(),
        },
    }
}

/// The member list declared by a workspace manifest.
pub open spec fn workspace_members_spec(m: TomlValue) -> Option<Seq<TomlValue>> {
    match get_spec(m, "workspace"@) {
        Some(w) => array_of(get_spec(w, "members"@)),
        None => None,
    }
}

/// Whether a manifest has a table under `key` (any value counts, as in a lookup).
pub open spec fn has_key(m: TomlValue, key: Seq<char>) -> bool {
    get_spec(m, key) is Some
}

spec fn deref_opt(v: Option<&TomlValue>) -> Option<TomlValue> {
    match v {
        Some(x) => Some(*x),
        None => None,
    }
}

fn as_str(v: Option<&TomlValue>) -> (r: Option<&String>)
    ensures
        match r {
            Some(s) => str_of(deref_opt(v)) == Some(s@),
            None => str_of(deref_opt(v)) is None,
        },
{
    match v {
        Some(TomlValue::Str(s)) => Some(s),
        _ => None,
    }
}

fn as_array(v: Option<&TomlValue>) -> (r: Option<&Vec<TomlValue>>)
    ensures
        match r {
            Some(a) => array_of(deref_opt(v)) == Some(a@),
            None => array_of(deref_opt(v)) is None,
        },
{
    match v {
        Some(TomlValue::Array(a)) => Some(a),
        _ => None,
    }
}

fn lookup<'a>(v: Option<&'a TomlValue>, key: &str) -> (r: Option<&'a TomlValue>)
    ensures
        match v {
            Some(x) => deref_opt(r) == get_spec(*x, key@),
            None => r is None,
        },
{
    match v {
        Some(x) => {
            let r = get(x, key);
            match r {
                Some(y) => Some(y),
                None => None,
            }
        },
        None => None,
    }
}

/// The package name declared by a manifest.
pub fn get_package_name(m: &TomlValue) -> (r: Option<&String>)
    ensures
        match r {
            Some(s) => package_name(*m) == Some(s@),
            None => package_name(*m) is None,
        },
{
    let p = get(m, "package");
    as_str(lookup(p, "name"))
}

/// The name of a binary-target entry.
fn get_target_name(entry: &TomlValue) -> (r: Option<&String>)
    ensures
        match r {
            Some(s) => target_name(*entry) == Some(s@),
            None => target_name(*entry) is None,
        },
{
    as_str(get(entry, "name"))
}

/// The binary name of a single-package project: the name of the first explicit
/// binary target, else the package name.
pub fn simple_binary_name(m: &TomlValue) -> (r: Option<String>)
    ensures
        match r {
            Some(s) => simple_binary_name_spec(*m) == Some(s@),
            None => simple_binary_name_spec(*m) is None,
        },
{
    let bins = as_array(get(m, "bin"));
    if let Some(bins) = bins {
        if bins.len() > 0 {
            if let Some(n) = get_target_name(&bins[0]) {
                return Some(n.clone());
            }
        }
    }
    match get_package_name(m) {
        Some(n) => Some(n.clone()),
        None => None,
    }
}

/// The binaries a workspace member offers (see `member_binaries_spec`).
pub fn member_binaries(m: &TomlValue, has_entry_point: bool) -> (r: Vec<String>)
    ensures
        r@.map_values(|s: String| s@) == member_binaries_spec(*m, has_entry_point),
{
    let bins = as_array(get(m, "bin"));
    if let Some(bins) = bins {
        if bins.len() > 0 {
            let mut names: Vec<String> = Vec::new();
            let mut i: usize = 0;
            while i < bins.len()
                invariant
                    0 <= i <= bins@.len(),
                    names@.map_values(|s: String| s@) == target_names(bins@.subrange(0, i as int)),
                decreases bins@.len() - i,
            {
                assert(bins@.subrange(0, i + 1).drop_last() =~= bins@.subrange(0, i as int));
                if let Some(n) = get_target_name(&bins[i]) {
                    names.push(n.clone());
                }
                assert(names@.map_values(|s: String| s@) =~= target_names(bins@.subrange(0, i + 1)));
                i = i + 1;
            }
            assert(bins@.subrange(0, bins@.len() as int) =~= bins@);
            return names;
        }
    }
    let mut out: Vec<String> = Vec::new();
    if has_entry_point {
        if let Some(n) = get_package_name(m) {
            out.push(n.clone());
        }
    }
    assert(out@.map_values(|s: String| s@) =~= member_binaries_spec(*m, has_entry_point));
    out
}

/// The member list declared by a workspace manifest.
pub fn workspace_members(m: &TomlValue) -> (r: Option<&Vec<TomlValue>>)
    ensures
        match r {
            Some(a) => workspace_members_spec(*m) == Some(a@),
            None => workspace_members_spec(*m) is None,
        },
{
    let w = get(m, "workspace");
    as_array(lookup(w, "members"))
}

} // verus!
