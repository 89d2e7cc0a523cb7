//! TOML documents as the `toml` crate reads them, and the part of them that
//! this library looks at.
//!
//! Nothing in this file is proved: it states what the `toml` crate is trusted
//! to do.

use vstd::prelude::*;

verus! {

/// A TOML value as far as this library looks at it: a string with its text, a
/// table with its entries, or a value of any other kind.
pub enum TomlNode {
    Text(Seq<char>),
    Table(Map<Seq<char>, TomlNode>),
    Other,
}

/// `toml::Value`, carried through as it is.
#[verifier::external_type_specification]
#[verifier::external_body]
pub struct ExValue(toml::Value);

/// `toml::map::Map`, the type of a TOML table, carried through as it is.
#[verifier::external_type_specification]
#[verifier::external_body]
#[verifier::reject_recursive_types(K)]
#[verifier::reject_recursive_types(V)]
pub struct ExTable<K, V>(toml::map::Map<K, V>);

/// `toml::de::Error`, carried through as it is.
#[verifier::external_type_specification]
#[verifier::external_body]
pub struct ExParseError(toml::de::Error);

/// What `toml::from_str` reads in `text`: the document, or `None` where
/// `text` is no TOML document.
pub uninterp spec fn toml_parse(text: Seq<char>) -> Option<TomlNode>;

/// What a `toml::Value` holds.
pub uninterp spec fn node_of(value: toml::Value) -> TomlNode;

/// What a TOML table holds: a node under each of its keys.
pub uninterp spec fn entries_of(table: toml::Table) -> Map<Seq<char>, TomlNode>;

/// Calls `toml::from_str` for a `toml::Value`. Trusted: it fails exactly
/// where `toml_parse` has no document for the text, and otherwise returns
/// a value that holds that document.
#[verifier::external_body]
pub(crate) fn parse_document(text: &str) -> (r: Result<toml::Value, toml::de::Error>)
    ensures
        r is Ok <==> toml_parse(text@) is Some,
        r matches Ok(doc) ==> toml_parse(text@) == Some(node_of(doc)),
{
    toml::from_str::<toml::Value>(text)
}

/// Calls `toml::Value::get` with a string index. Trusted: on a table that has
/// the key it returns the value under it, and `None` on a table without the
/// key and on every value that is no table.
#[verifier::external_body]
pub(crate) fn value_get<'a>(value: &'a toml::Value, key: &str) -> (r: Option<&'a toml::Value>)
    ensures
        match node_of(*value) {
            TomlNode::Table(entries) if entries.contains_key(key@) => r matches Some(found)
                && node_of(*found) == entries[key@],
            _ => r is None,
        },
{
    value.get(key)
}

/// Trusted of `toml::Value::as_table`: it returns the table of a value that is
/// one, and `None` for every other value.
pub assume_specification<'a>[ toml::Value::as_table ](value: &'a toml::Value) -> (r: Option<
    &'a toml::Table,
>)
    ensures
        match node_of(*value) {
            TomlNode::Table(entries) => r matches Some(table) && entries_of(*table) == entries,
            _ => r is None,
        },
;

/// Trusted of `toml::Value::as_str`: it returns the text of a value that is a
/// string, and `None` for every other value.
pub assume_specification<'a>[ toml::Value::as_str ](value: &'a toml::Value) -> (r: Option<
    &'a str,
>)
    ensures
        match node_of(*value) {
            TomlNode::Text(text) => r matches Some(found) && found@ == text,
            _ => r is None,
        },
;

/// Calls `toml::map::Map::get` with a string key. Trusted: it returns the
/// value under the key, and `None` where the table has no such key.
#[verifier::external_body]
pub(crate) fn table_get<'a>(table: &'a toml::Table, key: &str) -> (r: Option<&'a toml::Value>)
    ensures
        match r {
            Some(found) => entries_of(*table).contains_key(key@) && node_of(*found) == entries_of(
                *table,
            )[key@],
            None => !entries_of(*table).contains_key(key@),
        },
{
    table.get(key)
}

} // verus!
