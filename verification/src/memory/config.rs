//! Access to the configuration, which is a TOML table.

use vstd::prelude::*;

verus! {

/// A value of a TOML document, from the `toml` crate.
#[verifier::external_type_specification]
#[verifier::external_body]
pub struct ExTomlValue(toml::Value);

/// A table of a TOML document, from the `toml` crate.
#[verifier::external_type_specification]
#[verifier::external_body]
#[verifier::reject_recursive_types(K)]
#[verifier::reject_recursive_types(V)]
pub struct ExTomlMap<K, V>(toml::map::Map<K, V>);

/// The entries of a table, by their keys.
pub uninterp spec fn table_entries(table: toml::map::Map<String, toml::Value>) -> Map<Seq<char>, toml::Value>;

/// The characters of a value that is a string.
pub uninterp spec fn string_chars(value: toml::Value) -> Option<Seq<char>>;

/// The items of a value that is an array.
pub uninterp spec fn array_items(value: toml::Value) -> Option<Seq<toml::Value>>;

/// The entries of a value that is a table.
pub uninterp spec fn value_table(value: toml::Value) -> Option<toml::map::Map<String, toml::Value>>;

/// `toml::map::Map::get` finds the entry with the given key.
#[verifier::external_body]
pub(crate) fn table_get<'a>(table: &'a toml::Table, key: &str) -> (r: Option<&'a toml::Value>)
    ensures
        r == if table_entries(*table).dom().contains(key@) {
            Some(&table_entries(*table)[key@])
        } else {
            None
        },
{
    table.get(key)
}

/// `toml::Value::as_str` gives the string that a value is, if it is one.
pub assume_specification[ toml::Value::as_str ](value: &toml::Value) -> (r: Option<&str>)
    ensures
        string_chars(*value) == match r {
            Some(s) => Some(s@),
            None => None,
        },
;

/// `toml::Value::as_array` gives the array that a value is, if it is one.
pub assume_specification[ toml::Value::as_array ](value: &toml::Value) -> (r: Option<
    &Vec<toml::Value>,
>)
    ensures
        array_items(*value) == match r {
            Some(items) => Some(items@),
            None => None,
        },
;

/// `toml::Value::as_table` gives the table that a value is, if it is one.
pub assume_specification[ toml::Value::as_table ](value: &toml::Value) -> (r: Option<&toml::Table>)
    ensures
        value_table(*value) == match r {
            Some(table) => Some(*table),
            None => None,
        },
;

} // verus!
