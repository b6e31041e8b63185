use venman::config::ConfigStore;
use venman::delete::{delete_venv, DeleteFlow};
use venman::error::RegistryError;
use venman::paths::Platform;
use venman::protocol::{Outcome, Request, Response, Step};

const TWO: &str = "[alpha]\ndescription = \"first\"\npackages = \"a\"\n\n[beta]\ndescription = \"second\"\npackages = \"b c\"\n";

fn chosen(name: &str) -> DeleteFlow {
    let flow = DeleteFlow::begin(Platform::Posix);
    assert_eq!(flow.pending(), Step::Perform(Request::AskEnvironmentToDelete));
    let (flow, step) = delete_venv(flow, Response::Answer(name.to_string()));
    assert_eq!(step, Step::Perform(Request::ProbeEnvironment { name: name.to_string() }));
    flow
}

fn confirming(name: &str, config: &str) -> DeleteFlow {
    let (flow, step) = delete_venv(chosen(name), Response::Exists(true));
    assert_eq!(step, Step::Perform(Request::ReadConfig));
    let (flow, step) = delete_venv(flow, Response::ConfigText(Some(config.to_string())));
    assert_eq!(step, Step::Perform(Request::AskDeletionConfirmation { name: name.to_string() }));
    flow
}

#[test]
fn deletion_of_a_missing_environment_fails_and_changes_nothing() {
    let (flow, step) = delete_venv(chosen("ghost"), Response::Exists(false));
    assert_eq!(step, Step::Finished);
    let failed =
        DeleteFlow::Finished(Err(RegistryError::EnvironmentNotFound { name: "ghost".to_string() }));
    assert_eq!(flow, failed);
    let (flow, step) = delete_venv(flow, Response::Answer("yes".to_string()));
    assert_eq!(step, Step::Finished);
    assert_eq!(flow, failed);
}

#[test]
fn deletion_fails_on_an_unreadable_configuration() {
    let (flow, _) = delete_venv(chosen("alpha"), Response::Exists(true));
    let (flow, step) = delete_venv(flow, Response::ConfigText(None));
    assert_eq!(step, Step::Finished);
    assert_eq!(flow, DeleteFlow::Finished(Err(RegistryError::ConfigUnreadable)));
}

#[test]
fn deletion_fails_on_a_malformed_configuration_before_asking() {
    let (flow, _) = delete_venv(chosen("alpha"), Response::Exists(true));
    let (flow, step) = delete_venv(flow, Response::ConfigText(Some("[alpha".to_string())));
    assert_eq!(step, Step::Finished);
    assert_eq!(flow, DeleteFlow::Finished(Err(RegistryError::ConfigMalformed)));
}

#[test]
fn deletion_is_cancelled_by_anything_but_yes() {
    for answer in ["", "no", "y", "yes please", "ye", "n", "YESS", " yes"] {
        let (flow, step) =
            delete_venv(confirming("alpha", TWO), Response::Answer(answer.to_string()));
        assert_eq!(step, Step::Finished);
        assert_eq!(flow, DeleteFlow::Finished(Ok(Outcome::DeletionCancelled)));
    }
}

#[test]
fn deletion_is_confirmed_by_yes_in_any_case() {
    for answer in ["yes", "YES", "Yes", "yEs", "yeS"] {
        let (_, step) = delete_venv(confirming("alpha", TWO), Response::Answer(answer.to_string()));
        assert_eq!(step, Step::Perform(Request::RemoveEnvironment { name: "alpha".to_string() }));
    }
}

#[test]
fn deletion_removes_the_directory_then_rewrites_the_configuration() {
    let (flow, _) = delete_venv(confirming("alpha", TWO), Response::Answer("yes".to_string()));
    let (flow, step) = delete_venv(flow, Response::Completed(Ok(())));
    let text = match step {
        Step::Perform(Request::WriteConfig { text }) => text,
        other => panic!("unexpected step: {:?}", other),
    };
    assert_eq!(text, "[beta]\ndescription = \"second\"\npackages = \"b c\"\n");
    let store = ConfigStore::load(&text).unwrap();
    assert_eq!(store.lookup("alpha"), None);
    assert!(store.lookup("beta").is_some());
    let (flow, step) = delete_venv(flow, Response::Completed(Ok(())));
    assert_eq!(step, Step::Finished);
    assert_eq!(flow, DeleteFlow::Finished(Ok(Outcome::Deleted { name: "alpha".to_string() })));
}

#[test]
fn deletion_of_an_unconfigured_environment_rewrites_the_configuration_whole() {
    let (flow, _) = delete_venv(confirming("stray", TWO), Response::Answer("yes".to_string()));
    let (_, step) = delete_venv(flow, Response::Completed(Ok(())));
    assert_eq!(
        step,
        Step::Perform(Request::WriteConfig {
            text: ConfigStore::load(TWO).unwrap().render().unwrap(),
        })
    );
}

#[test]
fn deletion_fails_where_the_directory_could_not_be_removed() {
    let (flow, _) = delete_venv(confirming("alpha", TWO), Response::Answer("yes".to_string()));
    let (flow, step) = delete_venv(flow, Response::Completed(Err("busy".to_string())));
    assert_eq!(step, Step::Finished);
    assert_eq!(flow, DeleteFlow::Finished(Err(RegistryError::Io { diagnostic: "busy".to_string() })));
}

#[test]
fn deletion_fails_where_the_configuration_could_not_be_written() {
    let (flow, _) = delete_venv(confirming("alpha", TWO), Response::Answer("yes".to_string()));
    let (flow, _) = delete_venv(flow, Response::Completed(Ok(())));
    let (flow, step) = delete_venv(flow, Response::Completed(Err("read-only".to_string())));
    assert_eq!(step, Step::Finished);
    assert_eq!(
        flow,
        DeleteFlow::Finished(Err(RegistryError::Io { diagnostic: "read-only".to_string() }))
    );
}

#[test]
fn deletion_ignores_an_answer_to_something_else() {
    let (flow, step) = delete_venv(confirming("alpha", TWO), Response::Completed(Ok(())));
    assert_eq!(step, Step::Perform(Request::AskDeletionConfirmation { name: "alpha".to_string() }));
    let (flow, step) = delete_venv(flow, Response::Exists(true));
    assert_eq!(step, Step::Perform(Request::AskDeletionConfirmation { name: "alpha".to_string() }));
    assert_eq!(flow, confirming("alpha", TWO));
}

#[test]
fn deletion_with_the_empty_name_fails_and_asks_for_nothing() {
    let flow = DeleteFlow::begin(Platform::Posix);
    let (flow, step) = delete_venv(flow, Response::Answer(String::new()));
    assert_eq!(step, Step::Finished);
    let failed =
        DeleteFlow::Finished(Err(RegistryError::EnvironmentNotFound { name: String::new() }));
    assert_eq!(flow, failed);
    let (flow, step) = delete_venv(flow, Response::Exists(true));
    assert_eq!(step, Step::Finished);
    let (flow, step) = delete_venv(flow, Response::Answer("yes".to_string()));
    assert_eq!(step, Step::Finished);
    assert_eq!(flow, failed);
}

#[test]
fn deletion_of_a_text_that_is_no_name_fails_without_a_probe() {
    for answer in [".", "..", "a/b", "/", "../../home", "alpha/", "/etc"] {
        let flow = DeleteFlow::begin(Platform::Posix);
        let (flow, step) = delete_venv(flow, Response::Answer(answer.to_string()));
        assert_eq!(step, Step::Finished);
        assert_eq!(
            flow,
            DeleteFlow::Finished(Err(RegistryError::EnvironmentNotFound {
                name: answer.to_string(),
            }))
        );
    }
}

#[test]
fn deletion_knows_the_separators_of_its_system() {
    for answer in ["a\\b", "c:", "..\\x", "alpha.", "alpha ", ".. "] {
        let flow = DeleteFlow::begin(Platform::Windows);
        let (flow, step) = delete_venv(flow, Response::Answer(answer.to_string()));
        assert_eq!(step, Step::Finished);
        assert_eq!(
            flow,
            DeleteFlow::Finished(Err(RegistryError::EnvironmentNotFound {
                name: answer.to_string(),
            }))
        );
    }
    let flow = DeleteFlow::begin(Platform::Posix);
    let (_, step) = delete_venv(flow, Response::Answer("v1.".to_string()));
    assert_eq!(step, Step::Perform(Request::ProbeEnvironment { name: "v1.".to_string() }));
}
