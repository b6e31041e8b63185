//! The boundary to the `toml` crate.
//!
//! Nothing in this file is proved. Each function makes one call into `toml`
//! and states what that call does; the rest of the crate is verified against
//! these statements. The statements speak of TOML values through the spec
//! functions declared here, which have no body: Verus knows of them only what
//! the contracts below say.
//!
//! A table is a `toml::Table`, which this build of `toml` keeps in a
//! `BTreeMap`: what it holds is a map from keys to values and nothing else.

use vstd::prelude::*;

verus! {

/// `toml::Value`, any TOML value. Verus sees nothing inside it.
#[verifier::external_type_specification]
#[verifier::external_body]
pub struct ExValue(toml::Value);

/// `toml::map::Map`, of which `toml::Table` is the one with string keys and
/// TOML values. Verus sees nothing inside it.
#[verifier::external_type_specification]
#[verifier::external_body]
#[verifier::reject_recursive_types(K)]
#[verifier::reject_recursive_types(V)]
pub struct ExMap<K, V>(toml::map::Map<K, V>);

/// `toml::de::Error`, why a text could not be read. Carried, never looked into.
#[verifier::external_type_specification]
#[verifier::external_body]
pub struct ExDeError(toml::de::Error);

/// `toml::ser::Error`, why a table could not be written. Carried, never looked into.
#[verifier::external_type_specification]
#[verifier::external_body]
pub struct ExSerError(toml::ser::Error);

/// What a table holds: its keys, and the value under each.
pub uninterp spec fn table_entries(table: toml::Table) -> Map<Seq<char>, toml::Value>;

/// The entries of a table that holds nothing.
pub open spec fn no_entries() -> Map<Seq<char>, toml::Value> {
    Map::empty()
}

/// The text of a value that is a string; `None` for a value of any other type.
pub uninterp spec fn value_text(value: toml::Value) -> Option<Seq<char>>;

/// The entries of a value that is a table; `None` for a value of any other type.
pub uninterp spec fn value_table(value: toml::Value) -> Option<Map<Seq<char>, toml::Value>>;

/// The entries of the document that `toml::from_str` reads from a text; `None`
/// where it reports an error.
pub uninterp spec fn document_of(text: Seq<char>) -> Option<Map<Seq<char>, toml::Value>>;

/// The text that `toml::to_string` writes for a table with these entries;
/// `None` where it reports an error.
pub uninterp spec fn rendered(entries: Map<Seq<char>, toml::Value>) -> Option<Seq<char>>;

/// The text that `toml::to_string_pretty` writes for a table with these
/// entries; `None` where it reports an error.
pub uninterp spec fn rendered_pretty(entries: Map<Seq<char>, toml::Value>) -> Option<Seq<char>>;

/// `toml::from_str`, reading a whole document into a table. Claims only that
/// the outcome is a function of the text: the same text gives the same entries,
/// or fails, every time.
#[verifier::external_body]
pub(crate) fn parse_document(text: &str) -> (r: Result<toml::Table, toml::de::Error>)
    ensures
        match r {
            Ok(table) => document_of(text@) == Some(table_entries(table)),
            Err(_) => document_of(text@) is None,
        },
{
    toml::from_str::<toml::Table>(text)
}

/// `toml::to_string` on a table. Claims only that the outcome is a function of
/// the table's entries.
#[verifier::external_body]
pub(crate) fn render_table(table: &toml::Table) -> (r: Result<String, toml::ser::Error>)
    ensures
        match r {
            Ok(text) => rendered(table_entries(*table)) == Some(text@),
            Err(_) => rendered(table_entries(*table)) is None,
        },
{
    toml::to_string(table)
}

/// `toml::to_string_pretty` on a table. Claims only that the outcome is a
/// function of the table's entries.
#[verifier::external_body]
pub(crate) fn render_table_pretty(table: &toml::Table) -> (r: Result<String, toml::ser::Error>)
    ensures
        match r {
            Ok(text) => rendered_pretty(table_entries(*table)) == Some(text@),
            Err(_) => rendered_pretty(table_entries(*table)) is None,
        },
{
    toml::to_string_pretty(table)
}

/// `Map::new`: a table that holds nothing.
#[verifier::external_body]
pub(crate) fn table_new() -> (r: toml::Table)
    ensures
        table_entries(r) == no_entries(),
{
    toml::Table::new()
}

/// `Map::insert`: the value stands under the key afterwards, in place of what
/// stood there; every other entry is as before.
#[verifier::external_body]
pub(crate) fn table_insert(table: &mut toml::Table, key: String, value: toml::Value)
    ensures
        table_entries(*final(table)) == table_entries(*old(table)).insert(key@, value),
{
    table.insert(key, value);
}

/// `Map::get` with a string key: the value under the key, if the table has the key.
#[verifier::external_body]
pub(crate) fn table_get<'a>(table: &'a toml::Table, key: &str) -> (r: Option<&'a toml::Value>)
    ensures
        match r {
            Some(value) => table_entries(*table).contains_key(key@) && table_entries(
                *table,
            )[key@] == *value,
            None => !table_entries(*table).contains_key(key@),
        },
{
    table.get(key)
}

/// `Map::remove` with a string key: the key is gone afterwards; every other
/// entry is as before.
#[verifier::external_body]
pub(crate) fn table_remove(table: &mut toml::Table, key: &str)
    ensures
        table_entries(*final(table)) == table_entries(*old(table)).remove(key@),
{
    table.remove(key);
}

/// `Map::keys`, each key copied out: the keys of the table, all of them and no other string.
#[verifier::external_body]
pub(crate) fn table_keys(table: &toml::Table) -> (keys: Vec<String>)
    ensures
        forall|i: int|
            0 <= i < keys.len() ==> table_entries(*table).contains_key(#[trigger] keys[i]@),
        forall|key: Seq<char>| #[trigger]
            table_entries(*table).contains_key(key) ==> exists|i: int|
                0 <= i < keys.len() && #[trigger] keys[i]@ == key,
{
    table.keys().cloned().collect()
}

/// `Value::as_str`: the string inside a string value, nothing for any other.
#[verifier::external_body]
pub(crate) fn value_as_str<'a>(value: &'a toml::Value) -> (r: Option<&'a str>)
    ensures
        match r {
            Some(text) => value_text(*value) == Some(text@),
            None => value_text(*value) is None,
        },
{
    value.as_str()
}

/// `Value::as_table`: the table inside a table value, nothing for any other.
#[verifier::external_body]
pub(crate) fn value_as_table<'a>(value: &'a toml::Value) -> (r: Option<&'a toml::Table>)
    ensures
        match r {
            Some(table) => value_table(*value) == Some(table_entries(*table)),
            None => value_table(*value) is None,
        },
{
    value.as_table()
}

/// The variant `Value::String`: a string value with the given text.
#[verifier::external_body]
pub(crate) fn text_value(text: String) -> (value: toml::Value)
    ensures
        value_text(value) == Some(text@),
{
    toml::Value::String(text)
}

/// The variant `Value::Table`: a table value with the given table's entries.
#[verifier::external_body]
pub(crate) fn table_value(table: toml::Table) -> (value: toml::Value)
    ensures
        value_table(value) == Some(table_entries(table)),
{
    toml::Value::Table(table)
}

} // verus!
