use venman::config::{ConfigStore, EnvironmentRecord};
use venman::error::RegistryError;
use venman::listing::{
    list_environments, list_venv_names, list_venvs, none_discovered, DirectoryScan, ListFlow,
};
use venman::protocol::{ListedEnvironment, Outcome, Request, Response, ScannedEntry, Step};
use venman::scan::environment_names;

fn dir(name: &str) -> ScannedEntry {
    ScannedEntry { name: Some(name.to_string()), is_dir: true }
}

fn file(name: &str) -> ScannedEntry {
    ScannedEntry { name: Some(name.to_string()), is_dir: false }
}

fn configured(name: &str, description: &str, packages: &str) -> ListedEnvironment {
    ListedEnvironment::Configured {
        name: name.to_string(),
        record: EnvironmentRecord {
            description: description.to_string(),
            packages: packages.to_string(),
        },
    }
}

fn unconfigured(name: &str) -> ListedEnvironment {
    ListedEnvironment::Unconfigured { name: name.to_string() }
}

const TWO: &str = "[alpha]\ndescription = \"first\"\npackages = \"a\"\n\n[beta]\ndescription = \"second\"\npackages = \"b c\"\n";

#[test]
fn scanner_keeps_directories_in_scan_order() {
    let entries = vec![dir("zeta"), file("notes.txt"), dir("alpha"), dir("mid")];
    assert_eq!(environment_names(&entries), vec!["zeta", "alpha", "mid"]);
}

#[test]
fn scanner_ignores_what_is_not_a_directory() {
    let entries = vec![file("a"), file("b")];
    assert_eq!(environment_names(&entries), Vec::<String>::new());
    assert_eq!(environment_names(&Vec::new()), Vec::<String>::new());
}

#[test]
fn scanner_names_an_unreadable_name_unknown() {
    let entries = vec![
        ScannedEntry { name: None, is_dir: true },
        ScannedEntry { name: None, is_dir: false },
        dir("alpha"),
    ];
    assert_eq!(environment_names(&entries), vec!["Unknown", "alpha"]);
}

#[test]
fn listing_shows_each_name_with_its_record_or_without() {
    let store = ConfigStore::load(TWO).unwrap();
    let names = vec!["beta".to_string(), "orphan".to_string(), "alpha".to_string()];
    assert_eq!(
        list_environments(&store, &names),
        vec![configured("beta", "second", "b c"), unconfigured("orphan"), configured("alpha", "first", "a")]
    );
}

#[test]
fn listing_never_shows_a_name_that_is_only_configured() {
    let store = ConfigStore::load(TWO).unwrap();
    let names = vec!["alpha".to_string()];
    assert_eq!(list_environments(&store, &names), vec![configured("alpha", "first", "a")]);
}

#[test]
fn empty_listing_has_nothing_discovered() {
    assert!(none_discovered(&Vec::new()));
}

#[test]
fn listing_of_unconfigured_names_has_something_discovered() {
    assert!(!none_discovered(&vec![unconfigured("gamma")]));
    assert!(!none_discovered(&vec![unconfigured("a"), unconfigured("b")]));
}

#[test]
fn listing_with_a_record_has_something_discovered() {
    assert!(!none_discovered(&vec![unconfigured("a"), configured("b", "", "")]));
    assert!(!none_discovered(&vec![configured("b", "", "")]));
}

#[test]
fn list_flow_starts_by_probing_the_directory() {
    let flow = ListFlow::begin();
    assert_eq!(flow, ListFlow::Probing);
    assert_eq!(flow.pending(), Step::Perform(Request::ProbeEnvironmentsDir));
}

#[test]
fn list_flow_without_directory_reports_no_environments_and_reads_nothing() {
    let (flow, step) = list_venvs(ListFlow::begin(), Response::Exists(false));
    assert_eq!(step, Step::Finished);
    assert_eq!(flow, ListFlow::Finished(Ok(Outcome::NoEnvironmentsFound)));
    let (flow, step) = list_venvs(flow, Response::ConfigText(Some("not toml at all [".to_string())));
    assert_eq!(step, Step::Finished);
    assert_eq!(flow, ListFlow::Finished(Ok(Outcome::NoEnvironmentsFound)));
}

#[test]
fn list_flow_lists_the_directories_against_the_configuration() {
    let (flow, step) = list_venvs(ListFlow::begin(), Response::Exists(true));
    assert_eq!(step, Step::Perform(Request::ReadConfig));
    let (flow, step) = list_venvs(flow, Response::ConfigText(Some(TWO.to_string())));
    assert_eq!(step, Step::Perform(Request::ScanEnvironments));
    let entries = vec![dir("beta"), file("venvs.toml"), dir("stray")];
    let (flow, step) = list_venvs(flow, Response::Scanned(Ok(entries)));
    assert_eq!(step, Step::Finished);
    assert_eq!(
        flow,
        ListFlow::Finished(Ok(Outcome::Listed {
            environments: vec![configured("beta", "second", "b c"), unconfigured("stray")],
        }))
    );
}

#[test]
fn list_flow_reports_an_unconfigured_directory_without_failing() {
    let (flow, _) = list_venvs(ListFlow::begin(), Response::Exists(true));
    let (flow, _) = list_venvs(flow, Response::ConfigText(Some(String::new())));
    let (flow, _) = list_venvs(flow, Response::Scanned(Ok(vec![dir("lonely")])));
    assert_eq!(
        flow,
        ListFlow::Finished(Ok(Outcome::Listed { environments: vec![unconfigured("lonely")] }))
    );
    assert!(!none_discovered(&vec![unconfigured("lonely")]));
}

#[test]
fn list_flow_of_an_empty_directory_lists_nothing() {
    let (flow, _) = list_venvs(ListFlow::begin(), Response::Exists(true));
    let (flow, _) = list_venvs(flow, Response::ConfigText(Some(TWO.to_string())));
    let (flow, step) = list_venvs(flow, Response::Scanned(Ok(Vec::new())));
    assert_eq!(step, Step::Finished);
    match flow {
        ListFlow::Finished(Ok(Outcome::Listed { environments })) => {
            assert!(environments.is_empty());
            assert!(none_discovered(&environments));
        }
        other => panic!("unexpected end: {:?}", other),
    }
}

#[test]
fn list_flow_fails_on_an_unreadable_configuration() {
    let (flow, _) = list_venvs(ListFlow::begin(), Response::Exists(true));
    let (flow, step) = list_venvs(flow, Response::ConfigText(None));
    assert_eq!(step, Step::Finished);
    assert_eq!(flow, ListFlow::Finished(Err(RegistryError::ConfigUnreadable)));
}

#[test]
fn list_flow_fails_on_a_malformed_configuration() {
    let (flow, _) = list_venvs(ListFlow::begin(), Response::Exists(true));
    let (flow, step) = list_venvs(flow, Response::ConfigText(Some("alpha = 1".to_string())));
    assert_eq!(step, Step::Finished);
    assert_eq!(flow, ListFlow::Finished(Err(RegistryError::ConfigMalformed)));
}

#[test]
fn list_flow_fails_on_an_unreadable_directory() {
    let (flow, _) = list_venvs(ListFlow::begin(), Response::Exists(true));
    let (flow, _) = list_venvs(flow, Response::ConfigText(Some(TWO.to_string())));
    let (flow, step) = list_venvs(flow, Response::Scanned(Err("permission denied".to_string())));
    assert_eq!(step, Step::Finished);
    assert_eq!(
        flow,
        ListFlow::Finished(Err(RegistryError::DirectoryUnreadable {
            diagnostic: "permission denied".to_string(),
        }))
    );
}

#[test]
fn list_flow_ignores_an_answer_to_something_else() {
    let (flow, step) = list_venvs(ListFlow::begin(), Response::Answer("alpha".to_string()));
    assert_eq!(flow, ListFlow::Probing);
    assert_eq!(step, Step::Perform(Request::ProbeEnvironmentsDir));
    let (flow, _) = list_venvs(flow, Response::Exists(true));
    let (flow, step) = list_venvs(flow, Response::Exists(true));
    assert_eq!(flow, ListFlow::ReadingConfig);
    assert_eq!(step, Step::Perform(Request::ReadConfig));
}

#[test]
fn names_of_a_missing_directory() {
    assert_eq!(list_venv_names(&DirectoryScan::Missing), Ok(Outcome::NoEnvironmentsFound));
}

#[test]
fn names_of_an_unreadable_directory() {
    assert_eq!(
        list_venv_names(&DirectoryScan::Unreadable { diagnostic: "denied".to_string() }),
        Err(RegistryError::DirectoryUnreadable { diagnostic: "denied".to_string() })
    );
}

#[test]
fn names_of_the_directories_found() {
    let scan = DirectoryScan::Entries(vec![dir("b"), file("x"), dir("a")]);
    assert_eq!(
        list_venv_names(&scan),
        Ok(Outcome::Names { names: vec!["b".to_string(), "a".to_string()] })
    );
    assert_eq!(
        list_venv_names(&DirectoryScan::Entries(Vec::new())),
        Ok(Outcome::Names { names: Vec::new() })
    );
}
