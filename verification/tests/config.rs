use venman::config::{ConfigStore, EnvironmentRecord};
use venman::error::RegistryError;

fn record(description: &str, packages: &str) -> EnvironmentRecord {
    EnvironmentRecord { description: description.to_string(), packages: packages.to_string() }
}

#[test]
fn loads_a_table_of_tables() {
    let text = "[alpha]\ndescription = \"test env\"\npackages = \"requests click\"\n";
    let store = ConfigStore::load(text).unwrap();
    assert_eq!(store.lookup("alpha"), Some(record("test env", "requests click")));
}

#[test]
fn empty_text_is_an_empty_configuration() {
    let store = ConfigStore::load("").unwrap();
    assert_eq!(store.lookup("alpha"), None);
}

#[test]
fn lookup_of_an_unknown_name_finds_nothing() {
    let store = ConfigStore::load("[alpha]\ndescription = \"a\"\npackages = \"b\"\n").unwrap();
    assert_eq!(store.lookup("beta"), None);
    assert_eq!(store.lookup(""), None);
    assert_eq!(store.lookup("Alpha"), None);
}

#[test]
fn text_that_is_not_toml_is_malformed() {
    assert_eq!(ConfigStore::load("this is not toml"), Err(RegistryError::ConfigMalformed));
    assert_eq!(ConfigStore::load("[alpha"), Err(RegistryError::ConfigMalformed));
}

#[test]
fn a_name_given_twice_is_malformed() {
    let text = "[alpha]\ndescription = \"one\"\npackages = \"\"\n\n[alpha]\ndescription = \"two\"\npackages = \"\"\n";
    assert_eq!(ConfigStore::load(text), Err(RegistryError::ConfigMalformed));
}

#[test]
fn a_top_level_value_that_is_no_table_is_malformed() {
    assert_eq!(ConfigStore::load("alpha = 5\n"), Err(RegistryError::ConfigMalformed));
    assert_eq!(
        ConfigStore::load("title = \"x\"\n\n[alpha]\ndescription = \"a\"\npackages = \"\"\n"),
        Err(RegistryError::ConfigMalformed)
    );
    assert_eq!(ConfigStore::load("alpha = [1, 2]\n"), Err(RegistryError::ConfigMalformed));
}

#[test]
fn several_fragments_in_one_file_are_all_loaded() {
    let text = "[alpha]\ndescription = \"first\"\npackages = \"a\"\n\n[beta]\ndescription = \"second\"\npackages = \"b c\"\n\n";
    let store = ConfigStore::load(text).unwrap();
    assert_eq!(store.lookup("alpha"), Some(record("first", "a")));
    assert_eq!(store.lookup("beta"), Some(record("second", "b c")));
}

#[test]
fn missing_fields_are_shown_by_fixed_texts() {
    let store = ConfigStore::load("[alpha]\n").unwrap();
    assert_eq!(store.lookup("alpha"), Some(record("No description", "No packages")));
}

#[test]
fn fields_that_are_no_strings_are_shown_by_fixed_texts() {
    let store = ConfigStore::load("[alpha]\ndescription = 7\npackages = [\"a\"]\n").unwrap();
    assert_eq!(store.lookup("alpha"), Some(record("No description", "No packages")));
    let store = ConfigStore::load("[alpha]\ndescription = \"kept\"\npackages = true\n").unwrap();
    assert_eq!(store.lookup("alpha"), Some(record("kept", "No packages")));
}

#[test]
fn empty_fields_stay_empty() {
    let store = ConfigStore::load("[alpha]\ndescription = \"\"\npackages = \"\"\n").unwrap();
    assert_eq!(store.lookup("alpha"), Some(record("", "")));
}

#[test]
fn single_holds_the_record_under_its_name_only() {
    let store = ConfigStore::single("alpha".to_string(), &record("test env", "requests click"));
    assert_eq!(store.lookup("alpha"), Some(record("test env", "requests click")));
    assert_eq!(store.lookup("beta"), None);
    assert_eq!(store.lookup("description"), None);
}

#[test]
fn fragment_is_the_table_of_one_environment() {
    let text = ConfigStore::fragment("alpha".to_string(), &record("test env", "requests click"))
        .unwrap();
    assert_eq!(text, "[alpha]\ndescription = \"test env\"\npackages = \"requests click\"\n");
}

#[test]
fn fragment_reads_back_as_the_record() {
    let cases = [
        ("alpha", "test env", "requests click"),
        ("beta", "", ""),
        ("with space", "quotes \" and \\ backslash", "a\tb"),
        ("dotted.name", "line\nbreak", "x"),
        ("a b.c", "odd name", "y"),
        ("\u{e9}t\u{e9}", "\u{1f600}", "z"),
    ];
    for (name, description, packages) in cases {
        let wanted = record(description, packages);
        let text = ConfigStore::fragment(name.to_string(), &wanted).unwrap();
        let store = ConfigStore::load(&text).unwrap();
        assert_eq!(store.lookup(name), Some(wanted));
    }
}

#[test]
fn remove_takes_out_the_name_and_nothing_else() {
    let text = "[alpha]\ndescription = \"first\"\npackages = \"a\"\n\n[beta]\ndescription = \"second\"\npackages = \"b\"\n";
    let mut store = ConfigStore::load(text).unwrap();
    store.remove("alpha");
    assert_eq!(store.lookup("alpha"), None);
    assert_eq!(store.lookup("beta"), Some(record("second", "b")));
}

#[test]
fn remove_of_an_unknown_name_changes_nothing() {
    let text = "[alpha]\ndescription = \"first\"\npackages = \"a\"\n";
    let mut store = ConfigStore::load(text).unwrap();
    let before = ConfigStore::load(text).unwrap();
    store.remove("gamma");
    assert_eq!(store, before);
}

#[test]
fn render_writes_the_whole_configuration() {
    let text = "[beta]\npackages = \"b\"\ndescription = \"second\"\n[alpha]\ndescription = \"first\"\npackages = \"a\"\n";
    let store = ConfigStore::load(text).unwrap();
    assert_eq!(
        store.render().unwrap(),
        "[alpha]\ndescription = \"first\"\npackages = \"a\"\n\n[beta]\ndescription = \"second\"\npackages = \"b\"\n"
    );
}

#[test]
fn render_after_remove_reads_back_without_the_name() {
    let text = "[alpha]\ndescription = \"first\"\npackages = \"a\"\nextra = 3\n\n[beta]\ndescription = \"second\"\npackages = \"b\"\n";
    let mut store = ConfigStore::load(text).unwrap();
    store.remove("beta");
    let rendered = store.render().unwrap();
    let again = ConfigStore::load(&rendered).unwrap();
    assert_eq!(again, store);
    assert_eq!(again.lookup("beta"), None);
    assert_eq!(again.lookup("alpha"), Some(record("first", "a")));
    assert!(rendered.contains("extra = 3"));
}

#[test]
fn render_of_an_empty_configuration_is_empty() {
    let store = ConfigStore::load("").unwrap();
    assert_eq!(store.render().unwrap(), "");
}

fn fields(description: toml::Value, packages: toml::Value) -> toml::Value {
    let mut table = toml::Table::new();
    table.insert("description".to_string(), description);
    table.insert("packages".to_string(), packages);
    toml::Value::Table(table)
}

fn text(value: &str) -> toml::Value {
    toml::Value::String(value.to_string())
}

#[test]
fn an_empty_table_is_an_empty_configuration() {
    let store = ConfigStore::from_table(toml::Table::new()).unwrap();
    assert_eq!(store.lookup("alpha"), None);
    assert_eq!(store, ConfigStore::load("").unwrap());
}

#[test]
fn a_table_of_tables_is_taken_as_it_is() {
    let mut table = toml::Table::new();
    table.insert("alpha".to_string(), fields(text("first"), text("a b")));
    table.insert("beta".to_string(), toml::Value::Table(toml::Table::new()));
    let store = ConfigStore::from_table(table).unwrap();
    assert_eq!(store.lookup("alpha"), Some(record("first", "a b")));
    assert_eq!(store.lookup("beta"), Some(record("No description", "No packages")));
    assert_eq!(store.lookup("gamma"), None);
}

#[test]
fn a_table_with_a_value_that_is_no_table_is_malformed() {
    let others = [
        text("x"),
        toml::Value::Integer(5),
        toml::Value::Boolean(true),
        toml::Value::Array(vec![text("x")]),
    ];
    for other in others {
        let mut table = toml::Table::new();
        table.insert("alpha".to_string(), fields(text("first"), text("a")));
        table.insert("beta".to_string(), other);
        assert_eq!(ConfigStore::from_table(table), Err(RegistryError::ConfigMalformed));
    }
    let mut table = toml::Table::new();
    table.insert("only".to_string(), toml::Value::Integer(1));
    assert_eq!(ConfigStore::from_table(table), Err(RegistryError::ConfigMalformed));
}

#[test]
fn a_table_whose_fields_are_no_strings_is_well_formed() {
    let mut table = toml::Table::new();
    table.insert("alpha".to_string(), fields(toml::Value::Integer(1), text("kept")));
    let store = ConfigStore::from_table(table).unwrap();
    assert_eq!(store.lookup("alpha"), Some(record("No description", "kept")));
}
