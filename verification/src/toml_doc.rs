//! TOML documents as plain values. The `toml` crate parses the text; the
//! library reads the resulting tree through [`TomlValue`].
use crate::assoc::{has_key, is_first, lemma_first_unique};
use crate::text::chars_of;
use vstd::prelude::*;

verus! {

/// A TOML value. Floats and date-times, which the library never reads, are
/// kept as `Other`.
#[derive(Debug)]
pub enum TomlValue {
    Str(String),
    Int(i64),
    Bool(bool),
    Array(Vec<TomlValue>),
    Table(Vec<TomlEntry>),
    Other,
}

/// One `key = value` of a table, with the value's TOML rendering as the
/// `toml` crate writes it (`Display`).
#[derive(Debug)]
pub struct TomlEntry {
    pub key: String,
    pub value: TomlValue,
    pub text: String,
}

/// What `toml::from_str::<toml::Value>` yields for the document `content`:
/// the tree, or the error's message.
pub uninterp spec fn toml_parse(content: Seq<char>) -> Result<TomlValue, Seq<char>>;

#[verifier::external_type_specification]
#[verifier::external_body]
pub struct ExTomlValue(toml::Value);

/// The tree of a parsed `toml::Value`, entry texts rendered with `Display`.
#[verifier::external_body]
fn tree_of(v: &toml::Value) -> TomlValue {
    match v {
        toml::Value::String(s) => TomlValue::Str(s.clone()),
        toml::Value::Integer(i) => TomlValue::Int(*i),
        toml::Value::Boolean(b) => TomlValue::Bool(*b),
        toml::Value::Array(a) => TomlValue::Array(a.iter().map(tree_of).collect()),
        toml::Value::Table(t) => TomlValue::Table(
            t.iter().map(|(k, x)| TomlEntry { key: k.clone(), value: tree_of(x), text: format!("{}", x) }).collect(),
        ),
        toml::Value::Float(_) | toml::Value::Datetime(_) => TomlValue::Other,
    }
}

/// Calls `toml::from_str::<toml::Value>` on `content`. The tree, or the
/// error's message, is named `toml_parse`. Nothing more is claimed: a
/// document is usually a table, but one whose only key is the reserved
/// date-time field parses as a date-time.
#[verifier::external_body]
pub(crate) fn parse_toml(content: &str) -> (r: Result<TomlValue, String>)
    ensures
        match r {
            Ok(v) => toml_parse(content@) == Ok::<TomlValue, Seq<char>>(v),
            Err(e) => toml_parse(content@) == Err::<TomlValue, Seq<char>>(e@),
        },
{
    match toml::from_str::<toml::Value>(content) {
        Ok(v) => Ok(tree_of(&v)),
        Err(e) => Err(e.to_string()),
    }
}

/// The keys of a table's entries.
pub open spec fn table_keys(t: Seq<TomlEntry>) -> Seq<Seq<char>> {
    Seq::new(t.len(), |i: int| t[i].key@)
}

/// The value under `key` in the entries `t` (the first such entry).
pub open spec fn table_get(t: Seq<TomlEntry>, key: Seq<char>) -> Option<TomlValue> {
    if has_key(table_keys(t), key) {
        Some(t[crate::assoc::first_index(table_keys(t), key)].value)
    } else {
        None
    }
}

/// The entry value under `key` when `v` is a table (`toml::Value::get`).
pub open spec fn value_get(v: TomlValue, key: Seq<char>) -> Option<TomlValue> {
    match v {
        TomlValue::Table(t) => table_get(t@, key),
        _ => None,
    }
}

/// `toml::Value::as_str`.
pub open spec fn as_str(v: Option<TomlValue>) -> Option<Seq<char>> {
    match v {
        Some(TomlValue::Str(s)) => Some(s@),
        _ => None,
    }
}

/// The entries when `v` is a table (`toml::Value::as_table`).
pub open spec fn as_table(v: Option<TomlValue>) -> Option<Seq<TomlEntry>> {
    match v {
        Some(TomlValue::Table(t)) => Some(t@),
        _ => None,
    }
}

/// The string elements of an array, in order (others skipped), as
/// `arr.iter().filter_map(|v| v.as_str())` yields them.
pub open spec fn str_elems(a: Seq<TomlValue>) -> Seq<Seq<char>>
    decreases a.len(),
{
    if a.len() == 0 {
        Seq::empty()
    } else {
        let init = str_elems(a.drop_last());
        match a.last() {
            TomlValue::Str(s) => init.push(s@),
            _ => init,
        }
    }
}

/// The string elements when `v` is an array.
pub open spec fn as_str_array(v: Option<TomlValue>) -> Option<Seq<Seq<char>>> {
    match v {
        Some(TomlValue::Array(a)) => Some(str_elems(a@)),
        _ => None,
    }
}

/// The position of `key` among the entries `t`.
pub fn find_entry(t: &Vec<TomlEntry>, key: &str) -> (r: Option<usize>)
    ensures
        match r {
            Some(i) => is_first(table_keys(t@), key@, i as int),
            None => !has_key(table_keys(t@), key@),
        },
{
    let kv = chars_of(key);
    let mut i: usize = 0;
    while i < t.len()
        invariant
            kv@ == key@,
            i <= t.len(),
            forall|j: int| 0 <= j < i ==> table_keys(t@)[j] != key@,
        decreases t.len() - i,
    {
        let ek = chars_of(t[i].key.as_str());
        if crate::text::chars_eq(ek.as_slice(), kv.as_slice()) {
            return Some(i);
        }
        i = i + 1;
    }
    None
}

/// `toml::Value::get(key)`.
pub fn get<'a>(v: &'a TomlValue, key: &str) -> (r: Option<&'a TomlValue>)
    ensures
        match r {
            Some(x) => value_get(*v, key@) == Some(*x),
            None => value_get(*v, key@) is None,
        },
{
    match v {
        TomlValue::Table(t) => match find_entry(t, key) {
            Some(i) => {
                proof {
                    lemma_first_unique(table_keys(t@), key@, i as int);
                }
                Some(&t[i].value)
            },
            None => None,
        },
        _ => None,
    }
}

/// `get(key)` then `as_str()`.
pub fn get_str<'a>(v: &'a TomlValue, key: &str) -> (r: Option<&'a String>)
    ensures
        match r {
            Some(s) => as_str(value_get(*v, key@)) == Some(s@),
            None => as_str(value_get(*v, key@)) is None,
        },
{
    match get(v, key) {
        Some(TomlValue::Str(s)) => Some(s),
        _ => None,
    }
}

/// `get(key)` then `as_table()`.
pub fn get_table<'a>(v: &'a TomlValue, key: &str) -> (r: Option<&'a Vec<TomlEntry>>)
    ensures
        match r {
            Some(t) => as_table(value_get(*v, key@)) == Some(t@),
            None => as_table(value_get(*v, key@)) is None,
        },
{
    match get(v, key) {
        Some(TomlValue::Table(t)) => Some(t),
        _ => None,
    }
}

/// The string elements of an array, in order.
pub fn str_elements(a: &Vec<TomlValue>) -> (r: Vec<String>)
    ensures
        crate::text::string_views(r@) == str_elems(a@),
{
    let mut out: Vec<String> = Vec::new();
    let mut i: usize = 0;
    while i < a.len()
        invariant
            i <= a.len(),
            crate::text::string_views(out@) == str_elems(a@.take(i as int)),
        decreases a.len() - i,
    {
        proof {
            assert(a@.take(i + 1).drop_last() =~= a@.take(i as int));
        }
        let ghost prev = out@;
        match &a[i] {
            TomlValue::Str(s) => {
                out.push(s.clone());
                assert(crate::text::string_views(out@) =~= crate::text::string_views(prev).push(s@));
            },
            _ => {},
        }
        i = i + 1;
    }
    assert(a@.take(a.len() as int) =~= a@);
    out
}

/// `get(key)` then the string elements of the array.
pub fn get_str_array(v: &TomlValue, key: &str) -> (r: Option<Vec<String>>)
    ensures
        match r {
            Some(a) => as_str_array(value_get(*v, key@)) == Some(crate::text::string_views(a@)),
            None => as_str_array(value_get(*v, key@)) is None,
        },
{
    match get(v, key) {
        Some(TomlValue::Array(a)) => Some(str_elements(a)),
        _ => None,
    }
}

} // verus!
