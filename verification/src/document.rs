//! The TOML side of the configuration file: reading a document into a table,
//! looking entries up, building a table and writing it out. All of it is the
//! work of the `toml` crate; what this module says of it is believed, not
//! proved.
//!
//! A table is modelled by its top-level entries in the order the table keeps
//! them. An entry is a key and, where the value is a TOML string, its text;
//! a value of any other kind is modelled as `None`.

use vstd::prelude::*;

verus! {

/// `toml::map::Map`, the table type of the `toml` crate (`toml::Table` is
/// this map from `String` to `toml::Value`). Opaque here.
#[verifier::external_type_specification]
#[verifier::external_body]
#[verifier::reject_recursive_types(K)]
#[verifier::reject_recursive_types(V)]
pub struct ExTomlMap<K, V>(toml::map::Map<K, V>);

/// `toml::Value`, one value of a TOML document. Opaque here.
#[verifier::external_type_specification]
#[verifier::external_body]
pub struct ExTomlValue(toml::Value);

/// `toml::de::Error`, the reason a text is not a TOML document. Opaque here.
#[verifier::external_type_specification]
#[verifier::external_body]
pub struct ExTomlDeError(toml::de::Error);

/// `toml::ser::Error`, the reason a value cannot be written as TOML. Opaque
/// here.
#[verifier::external_type_specification]
#[verifier::external_body]
pub struct ExTomlSerError(toml::ser::Error);

/// The top-level entries of a table, in the table's own order.
pub uninterp spec fn table_entries(table: toml::Table) -> Seq<(Seq<char>, Option<Seq<char>>)>;

/// The entries of the table that `toml::from_str` reads from a text, or
/// `None` where it refuses the text.
pub uninterp spec fn parsed_document(text: Seq<char>) -> Option<
    Seq<(Seq<char>, Option<Seq<char>>)>,
>;

/// The text that `toml::to_string_pretty` writes for a table of string
/// entries, or `None` where it fails.
pub uninterp spec fn pretty_document(entries: Seq<(Seq<char>, Option<Seq<char>>)>) -> Option<
    Seq<char>,
>;

/// What a lookup in a table finds under a key.
pub enum Lookup {
    /// The table has no entry under the key.
    Missing,
    /// The entry's value is not a TOML string.
    NotText,
    /// The entry's value is a TOML string with this text.
    Text(String),
}

/// The first entry under `key`, if there is one: `Some(None)` for a value
/// that is not a string.
pub open spec fn entry_of(entries: Seq<(Seq<char>, Option<Seq<char>>)>, key: Seq<char>) -> Option<
    Option<Seq<char>>,
>
    decreases entries.len(),
{
    if entries.len() == 0 {
        None
    } else if entries[0].0 == key {
        Some(entries[0].1)
    } else {
        entry_of(entries.drop_first(), key)
    }
}

/// Whether every entry holds a string.
pub open spec fn all_text(entries: Seq<(Seq<char>, Option<Seq<char>>)>) -> bool {
    forall|i: int| 0 <= i < entries.len() ==> (#[trigger] entries[i]).1 is Some
}

/// Whether a lookup's result is what the entries hold under the key.
pub open spec fn lookup_is(found: Lookup, entry: Option<Option<Seq<char>>>) -> bool {
    match entry {
        None => found is Missing,
        Some(None) => found is NotText,
        Some(Some(text)) => found matches Lookup::Text(s) && s@ == text,
    }
}

/// Calls `toml::from_str` for a `toml::Table`. Not proved: that the table
/// it returns holds the entries named by `parsed_document`, and that it
/// fails exactly where that name is `None`; the name itself says nothing
/// of what TOML is.
#[verifier::external_body]
pub(crate) fn parse_table(text: &str) -> (parsed: Result<toml::Table, toml::de::Error>)
    ensures
        parsed is Ok <==> parsed_document(text@) is Some,
        parsed matches Ok(table) ==> table_entries(table) == parsed_document(text@).unwrap(),
{
    toml::from_str::<toml::Table>(text)
}

/// Calls `toml::map::Map::new`. Not proved: that the new table is empty.
#[verifier::external_body]
pub(crate) fn table_new() -> (table: toml::Table)
    ensures
        table_entries(table) == Seq::<(Seq<char>, Option<Seq<char>>)>::empty(),
{
    toml::Table::new()
}

/// Calls `toml::map::Map::insert` with a `toml::Value::String`. Not proved:
/// that a key the table does not hold yet goes behind the entries that are
/// there, which is what the map does when built to keep insertion order.
#[verifier::external_body]
pub(crate) fn table_insert_text(table: &mut toml::Table, key: &str, value: &str)
    requires
        entry_of(table_entries(*old(table)), key@) is None,
    ensures
        table_entries(*final(table)) == table_entries(*old(table)).push((key@, Some(value@))),
{
    table.insert(key.to_string(), toml::Value::String(value.to_string()));
}

/// Calls `toml::map::Map::get` and tells a string value from the others.
/// Not proved: that it finds the entry under the key, if the table has one.
#[verifier::external_body]
pub(crate) fn table_get(table: &toml::Table, key: &str) -> (found: Lookup)
    ensures
        lookup_is(found, entry_of(table_entries(*table), key@)),
{
    match table.get(key) {
        None => Lookup::Missing,
        Some(toml::Value::String(text)) => Lookup::Text(text.clone()),
        Some(_) => Lookup::NotText,
    }
}

/// Calls `toml::to_string_pretty` on a table. Not proved: that for a table
/// of string entries the text depends on the entries and their order alone,
/// which `pretty_document` names.
#[verifier::external_body]
pub(crate) fn table_to_pretty(table: &toml::Table) -> (written: Result<String, toml::ser::Error>)
    requires
        all_text(table_entries(*table)),
    ensures
        written is Ok <==> pretty_document(table_entries(*table)) is Some,
        written matches Ok(text) ==> text@ == pretty_document(table_entries(*table)).unwrap(),
{
    toml::to_string_pretty(table)
}

} // verus!
