//! Reading TOML documents through the `toml` crate.
//!
//! A parsed value is held as the crate's own `toml::Value`; what the library
//! reads of it is described by `TomlTree`, the tree of strings, booleans,
//! arrays and tables that the value holds.

use vstd::prelude::*;

verus! {

#[verifier::external_type_specification]
#[verifier::external_body]
pub struct ExTomlValue(toml::Value);

/// What a TOML value holds. Integers, floats and datetimes are not read by
/// this library and are all `Other`.
pub enum TomlTree {
    Text(Seq<char>),
    Flag(bool),
    List(Seq<TomlTree>),
    Table(Map<Seq<char>, TomlTree>),
    Other,
}

/// The tree that a `toml::Value` holds.
pub uninterp spec fn toml_tree(v: toml::Value) -> TomlTree;

/// The document that `toml` parses out of a text, or `None` where the text is
/// not valid TOML.
pub uninterp spec fn toml_document(raw: Seq<char>) -> Option<TomlTree>;

/// Relies on `toml::Table`'s `FromStr` (that is, `toml::from_str`): parses a
/// whole document into its top-level table, or fails on text that is not TOML.
#[verifier::external_body]
pub(crate) fn parse_document(raw: &str) -> (r: Option<toml::Value>)
    ensures
        match r {
            Some(v) => toml_document(raw@) == Some(toml_tree(v)) && toml_tree(v) is Table,
            None => toml_document(raw@) is None,
        },
{
    raw.parse::<toml::Table>().ok().map(toml::Value::Table)
}

/// Relies on `toml::Value::get` with a string key: the entry of that key in a
/// table, and `None` for a missing key or a value that is not a table.
#[verifier::external_body]
pub(crate) fn value_get<'a>(v: &'a toml::Value, key: &str) -> (r: Option<&'a toml::Value>)
    ensures
        match toml_tree(*v) {
            TomlTree::Table(m) => if m.contains_key(key@) {
                r is Some && toml_tree(*r->0) == m[key@]
            } else {
                r is None
            },
            _ => r is None,
        },
{
    v.get(key)
}

/// Relies on `toml::Value::as_str`: the text of a string value.
#[verifier::external_body]
pub(crate) fn value_as_str(v: &toml::Value) -> (r: Option<&str>)
    ensures
        match toml_tree(*v) {
            TomlTree::Text(s) => r is Some && r->0@ == s,
            _ => r is None,
        },
{
    v.as_str()
}

/// Relies on `toml::Value::is_table`: whether the value is a table.
#[verifier::external_body]
pub(crate) fn value_is_table(v: &toml::Value) -> (r: bool)
    ensures
        r == toml_tree(*v) is Table,
{
    v.is_table()
}

/// Relies on `toml::Value::as_bool`: the value of a boolean.
#[verifier::external_body]
pub(crate) fn value_as_bool(v: &toml::Value) -> (r: Option<bool>)
    ensures
        match toml_tree(*v) {
            TomlTree::Flag(b) => r == Some(b),
            _ => r is None,
        },
{
    v.as_bool()
}

/// Relies on `toml::Value::as_array`: the elements of an array, in order.
#[verifier::external_body]
pub(crate) fn value_as_array(v: &toml::Value) -> (r: Option<&Vec<toml::Value>>)
    ensures
        match toml_tree(*v) {
            TomlTree::List(items) => r is Some && r->0@.len() == items.len() && forall|i: int|
                0 <= i < items.len() ==> toml_tree(#[trigger] r->0@[i]) == items[i],
            _ => r is None,
        },
{
    v.as_array()
}

} // verus!
