use venman::activate::{activate_venv, ActivateFlow};
use venman::config::EnvironmentRecord;
use venman::error::RegistryError;
use venman::paths::Platform;
use venman::protocol::{Outcome, Request, Response, Step};

const CONFIG: &str = "[alpha]\ndescription = \"test env\"\npackages = \"requests click\"\n";

fn chosen(name: &str) -> (ActivateFlow, Step) {
    let flow = ActivateFlow::begin(Platform::Posix);
    assert_eq!(flow.pending(), Step::Perform(Request::AskEnvironmentToActivate));
    activate_venv(flow, Response::Answer(name.to_string()))
}

fn ready(name: &str) -> ActivateFlow {
    let (flow, _) = chosen(name);
    let (flow, _) = activate_venv(flow, Response::Exists(true));
    let (flow, step) = activate_venv(flow, Response::Exists(true));
    assert_eq!(step, Step::Perform(Request::ReadConfig));
    flow
}

#[test]
fn activation_probes_the_chosen_environment() {
    let (flow, step) = chosen("alpha");
    assert_eq!(flow, ActivateFlow::ProbingEnvironment { name: "alpha".to_string() });
    assert_eq!(step, Step::Perform(Request::ProbeEnvironment { name: "alpha".to_string() }));
}

#[test]
fn activation_of_a_missing_environment_fails() {
    let (flow, _) = chosen("ghost");
    let (flow, step) = activate_venv(flow, Response::Exists(false));
    assert_eq!(step, Step::Finished);
    assert_eq!(
        flow,
        ActivateFlow::Finished(Err(RegistryError::EnvironmentNotFound { name: "ghost".to_string() }))
    );
}

#[test]
fn activation_without_script_fails_and_starts_nothing() {
    let (flow, _) = chosen("alpha");
    let (flow, step) = activate_venv(flow, Response::Exists(true));
    assert_eq!(step, Step::Perform(Request::ProbeActivationScript { name: "alpha".to_string() }));
    let (flow, step) = activate_venv(flow, Response::Exists(false));
    assert_eq!(step, Step::Finished);
    assert_eq!(flow, ActivateFlow::Finished(Err(RegistryError::ActivationScriptMissing)));
    let (flow, step) = activate_venv(flow, Response::ConfigText(Some(CONFIG.to_string())));
    assert_eq!(step, Step::Finished);
    assert_eq!(flow, ActivateFlow::Finished(Err(RegistryError::ActivationScriptMissing)));
}

#[test]
fn activation_shows_the_record_and_enters_the_shell() {
    let (flow, step) = activate_venv(ready("alpha"), Response::ConfigText(Some(CONFIG.to_string())));
    let record = EnvironmentRecord {
        description: "test env".to_string(),
        packages: "requests click".to_string(),
    };
    assert_eq!(
        step,
        Step::Perform(Request::EnterShell { name: "alpha".to_string(), record: Some(record) })
    );
    let (flow, step) = activate_venv(flow, Response::Completed(Ok(())));
    assert_eq!(step, Step::Finished);
    assert_eq!(flow, ActivateFlow::Finished(Ok(Outcome::Activated { name: "alpha".to_string() })));
}

#[test]
fn activation_of_an_unconfigured_environment_enters_without_record() {
    let (_, step) = activate_venv(ready("stray"), Response::ConfigText(Some(CONFIG.to_string())));
    assert_eq!(step, Step::Perform(Request::EnterShell { name: "stray".to_string(), record: None }));
}

#[test]
fn activation_goes_on_without_a_readable_configuration() {
    let (_, step) = activate_venv(ready("alpha"), Response::ConfigText(None));
    assert_eq!(step, Step::Perform(Request::EnterShell { name: "alpha".to_string(), record: None }));
}

#[test]
fn activation_goes_on_with_a_malformed_configuration() {
    let (_, step) = activate_venv(ready("alpha"), Response::ConfigText(Some("alpha = [".to_string())));
    assert_eq!(step, Step::Perform(Request::EnterShell { name: "alpha".to_string(), record: None }));
}

#[test]
fn activation_fails_where_the_shell_could_not_be_started() {
    let (flow, _) = activate_venv(ready("alpha"), Response::ConfigText(None));
    let (flow, step) = activate_venv(flow, Response::Completed(Err("no bash".to_string())));
    assert_eq!(step, Step::Finished);
    assert_eq!(
        flow,
        ActivateFlow::Finished(Err(RegistryError::Io { diagnostic: "no bash".to_string() }))
    );
}

#[test]
fn activation_ignores_an_answer_to_something_else() {
    let (flow, step) = activate_venv(ActivateFlow::begin(Platform::Posix), Response::Exists(true));
    assert_eq!(flow, ActivateFlow::Asking { platform: Platform::Posix });
    assert_eq!(step, Step::Perform(Request::AskEnvironmentToActivate));
    let (flow, _) = chosen("alpha");
    let (flow, step) = activate_venv(flow, Response::Completed(Ok(())));
    assert_eq!(flow, ActivateFlow::ProbingEnvironment { name: "alpha".to_string() });
    assert_eq!(step, Step::Perform(Request::ProbeEnvironment { name: "alpha".to_string() }));
}

#[test]
fn activation_of_a_text_that_is_no_name_fails_without_a_probe() {
    for answer in ["", ".", "..", "a/b", "/", "../alpha", "alpha/"] {
        let (flow, step) = chosen(answer);
        assert_eq!(step, Step::Finished);
        assert_eq!(
            flow,
            ActivateFlow::Finished(Err(RegistryError::EnvironmentNotFound {
                name: answer.to_string(),
            }))
        );
    }
}

#[test]
fn activation_knows_the_separators_of_its_system() {
    let (_, step) = chosen("a\\b");
    assert_eq!(step, Step::Perform(Request::ProbeEnvironment { name: "a\\b".to_string() }));
    for answer in ["a\\b", "c:", "alpha.", "alpha "] {
        let flow = ActivateFlow::begin(Platform::Windows);
        let (flow, step) = activate_venv(flow, Response::Answer(answer.to_string()));
        assert_eq!(step, Step::Finished);
        assert_eq!(
            flow,
            ActivateFlow::Finished(Err(RegistryError::EnvironmentNotFound {
                name: answer.to_string(),
            }))
        );
    }
}
