//! The configuration store: the registry's table from environment names to
//! records, read from and written to TOML text.

use vstd::prelude::*;
use crate::error::{RegistryError, RegistryErrorView};
use crate::toml_api::{
    document_of, parse_document, render_table, render_table_pretty, rendered, rendered_pretty,
    table_entries, table_get, table_insert, table_keys, table_new, table_remove, table_value,
    text_value, value_as_str, value_as_table, value_table, value_text,
};

verus! {

/// What the registry records of one environment.
#[derive(Debug, PartialEq, Eq)]
pub struct EnvironmentRecord {
    /// Free text; may be empty.
    pub description: String,
    /// The packages, separated by white space, as one string.
    pub packages: String,
}

/// The mathematical value of an [`EnvironmentRecord`].
pub struct RecordView {
    pub description: Seq<char>,
    pub packages: Seq<char>,
}

impl View for EnvironmentRecord {
    type V = RecordView;

    open spec fn view(&self) -> RecordView {
        RecordView { description: self.description@, packages: self.packages@ }
    }
}

/// The entries of a configuration: each environment's name, and the TOML value under it.
pub type Entries = Map<Seq<char>, toml::Value>;

/// The key of a record's description.
pub open spec fn description_key() -> Seq<char> {
    "description"@
}

/// The key of a record's package list.
pub open spec fn packages_key() -> Seq<char> {
    "packages"@
}

/// What is shown for a record without a description.
pub open spec fn missing_description() -> Seq<char> {
    "No description"@
}

/// What is shown for a record without a package list.
pub open spec fn missing_packages() -> Seq<char> {
    "No packages"@
}

/// The text under a key of a table, where a string stands there.
pub open spec fn field_text(fields: Entries, key: Seq<char>) -> Option<Seq<char>> {
    if fields.contains_key(key) {
        value_text(fields[key])
    } else {
        None
    }
}

/// The record that a TOML value stands for: its two string fields, each
/// replaced by a fixed text where the field is missing or is not a string.
pub open spec fn entry_record(entry: toml::Value) -> RecordView {
    let fields = match value_table(entry) {
        Some(fields) => fields,
        None => Map::empty(),
    };
    RecordView {
        description: match field_text(fields, description_key()) {
            Some(text) => text,
            None => missing_description(),
        },
        packages: match field_text(fields, packages_key()) {
            Some(text) => text,
            None => missing_packages(),
        },
    }
}

/// The record found under a name, if the name is configured.
pub open spec fn lookup_in(entries: Entries, name: Seq<char>) -> Option<RecordView> {
    if entries.contains_key(name) {
        Some(entry_record(entries[name]))
    } else {
        None
    }
}

/// Every value of the configuration is a table.
pub open spec fn table_of_tables(entries: Entries) -> bool {
    forall|name: Seq<char>|
        entries.contains_key(name) ==> (#[trigger] value_table(entries[name])) is Some
}

/// The configuration that a text holds: the document it parses to, provided
/// that this is a table of tables.
pub open spec fn loaded(text: Seq<char>) -> Option<Entries> {
    match document_of(text) {
        Some(entries) => if table_of_tables(entries) {
            Some(entries)
        } else {
            None
        },
        None => None,
    }
}

/// The entries describe one environment and nothing else: a single table
/// under the name, with the record's two fields as strings.
pub open spec fn holds_only(entries: Entries, name: Seq<char>, record: RecordView) -> bool {
    &&& entries.dom() =~= set![name]
    &&& value_table(entries[name]) matches Some(fields)
    &&& fields.dom() =~= set![description_key(), packages_key()]
    &&& value_text(fields[description_key()]) == Some(record.description)
    &&& value_text(fields[packages_key()]) == Some(record.packages)
}

/// The text of the fragment that describes one environment: what
/// `toml::to_string` writes for a table that holds only that environment.
pub open spec fn is_fragment(
    text: Option<Seq<char>>,
    name: Seq<char>,
    record: RecordView,
) -> bool {
    exists|entries: Entries| #[trigger] holds_only(entries, name, record) && rendered(entries) == text
}

/// The configuration store, in memory.
#[derive(Debug, PartialEq)]
pub struct ConfigStore {
    table: toml::Table,
}

impl View for ConfigStore {
    type V = Entries;

    closed spec fn view(&self) -> Entries {
        table_entries(self.table)
    }
}

impl ConfigStore {
    /// What holds of every configuration store: it is a table of tables.
    pub open spec fn well_formed(&self) -> bool {
        table_of_tables(self@)
    }

    /// Reads a configuration from the text of the configuration file.
    ///
    /// Fails with `ConfigMalformed` exactly when the text is not a TOML
    /// document, or is one in which some top-level value is not a table.
    pub fn load(text: &str) -> (r: Result<ConfigStore, RegistryError>)
        ensures
            match r {
                Ok(store) => loaded(text@) == Some(store@) && store.well_formed(),
                Err(e) => loaded(text@) is None && e@ == RegistryErrorView::ConfigMalformed,
            },
    {
        match parse_document(text) {
            Err(_) => Err(RegistryError::ConfigMalformed),
            Ok(table) => ConfigStore::from_table(table),
        }
    }

    /// Takes a parsed document as a configuration.
    ///
    /// Fails with `ConfigMalformed` exactly when some value of the table is
    /// not itself a table; otherwise the configuration holds the table's
    /// entries, all of them and as they are.
    pub fn from_table(table: toml::Table) -> (r: Result<ConfigStore, RegistryError>)
        ensures
            match r {
                Ok(store) => store@ == table_entries(table) && store.well_formed(),
                Err(e) => !table_of_tables(table_entries(table)) && e@
                    == RegistryErrorView::ConfigMalformed,
            },
    {
        let keys = table_keys(&table);
        let mut i: usize = 0;
        while i < keys.len()
            invariant
                i <= keys.len(),
                forall|j: int|
                    0 <= j < keys.len() ==> table_entries(table).contains_key(#[trigger] keys[j]@),
                forall|j: int|
                    0 <= j < i ==> value_table(table_entries(table)[#[trigger] keys[j]@]) is Some,
            decreases keys.len() - i,
        {
            let is_table = match table_get(&table, keys[i].as_str()) {
                Some(value) => value_as_table(value).is_some(),
                None => false,
            };
            if !is_table {
                assert(table_entries(table).contains_key(keys[i as int]@));
                return Err(RegistryError::ConfigMalformed);
            }
            i += 1;
        }
        assert(table_of_tables(table_entries(table))) by {
            assert forall|name: Seq<char>|
                table_entries(table).contains_key(name) implies (#[trigger] value_table(
                table_entries(table)[name],
            )) is Some by {
                let j = choose|j: int| 0 <= j < keys.len() && #[trigger] keys[j]@ == name;
                assert(keys[j]@ == name);
            }
        }
        Ok(ConfigStore { table })
    }

    /// A configuration that describes one environment and nothing else.
    pub fn single(name: String, record: &EnvironmentRecord) -> (store: ConfigStore)
        ensures
            holds_only(store@, name@, record@),
            store.well_formed(),
    {
        let mut fields = table_new();
        table_insert(&mut fields, "description".to_string(), text_value(record.description.clone()));
        table_insert(&mut fields, "packages".to_string(), text_value(record.packages.clone()));
        let mut table = table_new();
        let ghost inner = table_entries(fields);
        table_insert(&mut table, name, table_value(fields));
        proof {
            reveal_strlit("description");
            reveal_strlit("packages");
            assert(description_key().len() != packages_key().len());
            assert(inner.dom() =~= set![description_key(), packages_key()]);
            assert(table_entries(table).dom() =~= set![name@]);
            single_record_is_found(table_entries(table), name@, record@);
        }
        ConfigStore { table }
    }

    /// The record of a name, if the configuration has the name.
    pub fn lookup(&self, name: &str) -> (r: Option<EnvironmentRecord>)
        ensures
            match r {
                Some(record) => lookup_in(self@, name@) == Some(record@),
                None => lookup_in(self@, name@) is None,
            },
    {
        match table_get(&self.table, name) {
            None => None,
            Some(entry) => {
                let (description, packages) = match value_as_table(entry) {
                    Some(fields) => (
                        text_field(fields, "description"),
                        text_field(fields, "packages"),
                    ),
                    None => (None, None),
                };
                let description = match description {
                    Some(text) => text,
                    None => "No description".to_string(),
                };
                let packages = match packages {
                    Some(text) => text,
                    None => "No packages".to_string(),
                };
                Some(EnvironmentRecord { description, packages })
            },
        }
    }

    /// Takes the name's entry out of the configuration; every other entry stays.
    pub fn remove(&mut self, name: &str)
        ensures
            final(self)@ == old(self)@.remove(name@),
            old(self).well_formed() ==> final(self).well_formed(),
    {
        table_remove(&mut self.table, name);
    }

    /// The whole configuration as the text of a configuration file.
    ///
    /// Fails with `ConfigUnwritable` exactly when `toml` cannot write it.
    pub fn render(&self) -> (r: Result<String, RegistryError>)
        ensures
            match r {
                Ok(text) => rendered_pretty(self@) == Some(text@),
                Err(e) => rendered_pretty(self@) is None && e@
                    == RegistryErrorView::ConfigUnwritable,
            },
    {
        match render_table_pretty(&self.table) {
            Ok(text) => Ok(text),
            Err(_) => Err(RegistryError::ConfigUnwritable),
        }
    }

    /// The text of the fragment that describes one environment, as it is
    /// added to the configuration file when the environment is created.
    ///
    /// Fails with `ConfigUnwritable` exactly when `toml` cannot write it.
    pub fn fragment(name: String, record: &EnvironmentRecord) -> (r: Result<String, RegistryError>)
        ensures
            match r {
                Ok(text) => is_fragment(Some(text@), name@, record@),
                Err(e) => is_fragment(None, name@, record@) && e@
                    == RegistryErrorView::ConfigUnwritable,
            },
    {
        let store = ConfigStore::single(name, record);
        match render_table(&store.table) {
            Ok(text) => Ok(text),
            Err(_) => Err(RegistryError::ConfigUnwritable),
        }
    }
}

/// The string under a key of a table, copied out.
fn text_field(fields: &toml::Table, key: &str) -> (r: Option<String>)
    ensures
        match r {
            Some(text) => field_text(table_entries(*fields), key@) == Some(text@),
            None => field_text(table_entries(*fields), key@) is None,
        },
{
    match table_get(fields, key) {
        None => None,
        Some(value) => match value_as_str(value) {
            Some(text) => Some(text.to_owned()),
            None => None,
        },
    }
}

/// A configuration that holds only one record shows that record under its
/// name, shows nothing under any other name, and is a table of tables.
pub proof fn single_record_is_found(entries: Entries, name: Seq<char>, record: RecordView)
    requires
        holds_only(entries, name, record),
    ensures
        lookup_in(entries, name) == Some(record),
        forall|other: Seq<char>| other != name ==> lookup_in(entries, other) is None,
        table_of_tables(entries),
{
    assert(entries.contains_key(name));
    let fields = value_table(entries[name])->0;
    assert(fields.contains_key(description_key()));
    assert(fields.contains_key(packages_key()));
    assert forall|other: Seq<char>| other != name implies lookup_in(entries, other) is None by {
        assert(!set![name].contains(other));
    }
}

/// Removing a name leaves nothing under that name and changes no other
/// name's record; a table of tables stays one.
pub proof fn removed_record_is_gone(entries: Entries, name: Seq<char>)
    ensures
        lookup_in(entries.remove(name), name) is None,
        forall|other: Seq<char>|
            other != name ==> lookup_in(entries.remove(name), other) == lookup_in(entries, other),
        table_of_tables(entries) ==> table_of_tables(entries.remove(name)),
{
}

} // verus!
