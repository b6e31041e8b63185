//! Activation: handing the terminal to a shell in which a chosen environment
//! is active.

use vstd::prelude::*;
use crate::config::{loaded, lookup_in, ConfigStore, EnvironmentRecord, RecordView};
use crate::error::{RegistryError, RegistryErrorView};
use crate::name::{environment_name, is_environment_name};
use crate::paths::Platform;
use crate::protocol::{
    ending_view, environment_of, run, run_stays, run_unfolds, starts_process, Ending, EndingView,
    Flow, Outcome, OutcomeView, Request, RequestView, Response, ResponseView, Step, StepView,
};

verus! {

/// The record shown on activation: the one that the configuration file has
/// under the name. There is none where the file could not be read, is
/// malformed, or does not have the name.
pub open spec fn shown_record(text: Option<Seq<char>>, name: Seq<char>) -> Option<RecordView> {
    match text {
        Some(text) => match loaded(text) {
            Some(entries) => lookup_in(entries, name),
            None => None,
        },
        None => None,
    }
}

/// The state of an activation.
#[derive(Debug, PartialEq, Eq)]
pub enum ActivateFlow {
    /// Waiting for the operator to choose an environment.
    Asking { platform: Platform },
    /// Waiting to learn whether the environment's directory exists.
    ProbingEnvironment { name: String },
    /// Waiting to learn whether the environment's activation script exists.
    ProbingScript { name: String },
    /// Waiting for the configuration file's text.
    ReadingConfig { name: String },
    /// Waiting for the environment's shell to end.
    Entering { name: String, record: Option<EnvironmentRecord> },
    /// Over.
    Finished(Ending),
}

/// The mathematical value of an [`ActivateFlow`].
pub enum ActivateFlowView {
    Asking { platform: Platform },
    ProbingEnvironment { name: Seq<char> },
    ProbingScript { name: Seq<char> },
    ReadingConfig { name: Seq<char> },
    Entering { name: Seq<char>, record: Option<RecordView> },
    Finished(EndingView),
}

impl View for ActivateFlow {
    type V = ActivateFlowView;

    open spec fn view(&self) -> ActivateFlowView {
        match self {
            ActivateFlow::Asking { platform } => ActivateFlowView::Asking { platform: *platform },
            ActivateFlow::ProbingEnvironment { name } => ActivateFlowView::ProbingEnvironment {
                name: name@,
            },
            ActivateFlow::ProbingScript { name } => ActivateFlowView::ProbingScript { name: name@ },
            ActivateFlow::ReadingConfig { name } => ActivateFlowView::ReadingConfig { name: name@ },
            ActivateFlow::Entering { name, record } => ActivateFlowView::Entering {
                name: name@,
                record: match record {
                    Some(record) => Some(record@),
                    None => None,
                },
            },
            ActivateFlow::Finished(ending) => ActivateFlowView::Finished(ending_view(*ending)),
        }
    }
}

impl Flow for ActivateFlowView {
    open spec fn next(self, response: ResponseView) -> ActivateFlowView {
        match self {
            ActivateFlowView::Asking { platform } => match response {
                ResponseView::Answer(name) => if is_environment_name(name, platform) {
                    ActivateFlowView::ProbingEnvironment { name }
                } else {
                    ActivateFlowView::Finished(
                        Err(RegistryErrorView::EnvironmentNotFound { name }),
                    )
                },
                _ => self,
            },
            ActivateFlowView::ProbingEnvironment { name } => match response {
                ResponseView::Exists(found) => if found {
                    ActivateFlowView::ProbingScript { name }
                } else {
                    ActivateFlowView::Finished(
                        Err(RegistryErrorView::EnvironmentNotFound { name }),
                    )
                },
                _ => self,
            },
            ActivateFlowView::ProbingScript { name } => match response {
                ResponseView::Exists(found) => if found {
                    ActivateFlowView::ReadingConfig { name }
                } else {
                    ActivateFlowView::Finished(Err(RegistryErrorView::ActivationScriptMissing))
                },
                _ => self,
            },
            ActivateFlowView::ReadingConfig { name } => match response {
                ResponseView::ConfigText(text) => ActivateFlowView::Entering {
                    name,
                    record: shown_record(text, name),
                },
                _ => self,
            },
            ActivateFlowView::Entering { name, record } => match response {
                ResponseView::Completed(Ok(_)) => ActivateFlowView::Finished(
                    Ok(OutcomeView::Activated { name }),
                ),
                ResponseView::Completed(Err(diagnostic)) => ActivateFlowView::Finished(
                    Err(RegistryErrorView::Io { diagnostic }),
                ),
                _ => self,
            },
            ActivateFlowView::Finished(_) => self,
        }
    }

    open spec fn pending(self) -> StepView {
        match self {
            ActivateFlowView::Asking { .. } => StepView::Perform(
                RequestView::AskEnvironmentToActivate,
            ),
            ActivateFlowView::ProbingEnvironment { name } => StepView::Perform(
                RequestView::ProbeEnvironment { name },
            ),
            ActivateFlowView::ProbingScript { name } => StepView::Perform(
                RequestView::ProbeActivationScript { name },
            ),
            ActivateFlowView::ReadingConfig { .. } => StepView::Perform(RequestView::ReadConfig),
            ActivateFlowView::Entering { name, record } => StepView::Perform(
                RequestView::EnterShell { name, record },
            ),
            ActivateFlowView::Finished(_) => StepView::Finished,
        }
    }
}

impl ActivateFlow {
    /// An activation that has asked for nothing yet, on a system of the given kind.
    pub fn begin(platform: Platform) -> (flow: ActivateFlow)
        ensures
            flow@ == (ActivateFlowView::Asking { platform }),
    {
        ActivateFlow::Asking { platform }
    }

    /// What the activation wants next.
    pub fn pending(&self) -> (step: Step)
        ensures
            step@ == self@.pending(),
    {
        match self {
            ActivateFlow::Asking { .. } => Step::Perform(Request::AskEnvironmentToActivate),
            ActivateFlow::ProbingEnvironment { name } => Step::Perform(
                Request::ProbeEnvironment { name: name.clone() },
            ),
            ActivateFlow::ProbingScript { name } => Step::Perform(
                Request::ProbeActivationScript { name: name.clone() },
            ),
            ActivateFlow::ReadingConfig { .. } => Step::Perform(Request::ReadConfig),
            ActivateFlow::Entering { name, record } => {
                let record = match record {
                    Some(record) => Some(
                        EnvironmentRecord {
                            description: record.description.clone(),
                            packages: record.packages.clone(),
                        },
                    ),
                    None => None,
                };
                Step::Perform(Request::EnterShell { name: name.clone(), record })
            },
            ActivateFlow::Finished(_) => Step::Finished,
        }
    }

    /// The activation after an answer.
    pub fn advance(self, response: Response) -> (flow: ActivateFlow)
        ensures
            flow@ == self@.next(response@),
    {
        match self {
            ActivateFlow::Asking { platform } => match response {
                Response::Answer(name) => if environment_name(name.as_str(), platform) {
                    ActivateFlow::ProbingEnvironment { name }
                } else {
                    ActivateFlow::Finished(Err(RegistryError::EnvironmentNotFound { name }))
                },
                _ => ActivateFlow::Asking { platform },
            },
            ActivateFlow::ProbingEnvironment { name } => match response {
                Response::Exists(found) => if found {
                    ActivateFlow::ProbingScript { name }
                } else {
                    ActivateFlow::Finished(Err(RegistryError::EnvironmentNotFound { name }))
                },
                _ => ActivateFlow::ProbingEnvironment { name },
            },
            ActivateFlow::ProbingScript { name } => match response {
                Response::Exists(found) => if found {
                    ActivateFlow::ReadingConfig { name }
                } else {
                    ActivateFlow::Finished(Err(RegistryError::ActivationScriptMissing))
                },
                _ => ActivateFlow::ProbingScript { name },
            },
            ActivateFlow::ReadingConfig { name } => match response {
                Response::ConfigText(text) => {
                    let record = match text {
                        Some(text) => match ConfigStore::load(text.as_str()) {
                            Ok(store) => store.lookup(name.as_str()),
                            Err(_) => None,
                        },
                        None => None,
                    };
                    ActivateFlow::Entering { name, record }
                },
                _ => ActivateFlow::ReadingConfig { name },
            },
            ActivateFlow::Entering { name, record } => match response {
                Response::Completed(Ok(_)) => ActivateFlow::Finished(
                    Ok(Outcome::Activated { name }),
                ),
                Response::Completed(Err(diagnostic)) => ActivateFlow::Finished(
                    Err(RegistryError::Io { diagnostic }),
                ),
                _ => ActivateFlow::Entering { name, record },
            },
            ActivateFlow::Finished(ending) => ActivateFlow::Finished(ending),
        }
    }
}

/// One step of an activation: takes the answer to what the activation
/// wanted, and gives the activation after it together with what it wants next.
///
/// The activation asks for a name. It fails with `EnvironmentNotFound` where
/// the answer is no name that an environment can have, without looking at
/// the disk, and where the name's directory does not exist; it fails with
/// `ActivationScriptMissing` where the directory holds no activation script. Otherwise it asks for the
/// configuration file, takes from it the record under the name if it can, and
/// asks for the environment's shell; when the shell has ended it ends with
/// `Activated`.
pub fn activate_venv(state: ActivateFlow, response: Response) -> (r: (ActivateFlow, Step))
    ensures
        r.0@ == state@.next(response@),
        r.1@ == r.0@.pending(),
{
    let next = state.advance(response);
    let step = next.pending();
    (next, step)
}

/// Where the environment's directory exists and its activation script does
/// not, the activation fails with `ActivationScriptMissing`, and at no point
/// does it want a process started, whatever answers it is given afterwards.
pub proof fn missing_script_fails_activation(
    platform: Platform,
    name: Seq<char>,
    responses: Seq<ResponseView>,
)
    requires
        is_environment_name(name, platform),
        responses.len() >= 3,
        responses[0] == ResponseView::Answer(name),
        responses[1] == ResponseView::Exists(true),
        responses[2] == ResponseView::Exists(false),
    ensures
        run(ActivateFlowView::Asking { platform }, responses) == ActivateFlowView::Finished(
            Err(RegistryErrorView::ActivationScriptMissing),
        ),
        forall|n: int|
            0 <= n <= responses.len() ==> !starts_process(
                #[trigger] run(ActivateFlowView::Asking { platform }, responses.take(n)).pending(),
            ),
{
    let start = ActivateFlowView::Asking { platform };
    run_unfolds(start, responses, 0);
    run_unfolds(start, responses, 1);
    run_unfolds(start, responses, 2);
    assert forall|n: int| 3 <= n <= responses.len() implies #[trigger] run(
        start,
        responses.take(n),
    ) == run(start, responses.take(3)) by {
        run_stays(start, responses, 3, n);
    }
    assert(responses.take(responses.len() as int) =~= responses);
}

/// An activation fails with `EnvironmentNotFound` where the answer is no
/// name that an environment can have, among them the empty answer, `.` and
/// `..`, and where the name's directory does not exist. In either case it
/// never wants a process started, whatever answers it is given afterwards,
/// and for a text that is no name it has not looked at the disk.
pub proof fn missing_environment_fails_activation(
    platform: Platform,
    name: Seq<char>,
    responses: Seq<ResponseView>,
)
    requires
        responses.len() >= 1,
        responses[0] == ResponseView::Answer(name),
        !is_environment_name(name, platform) || (responses.len() >= 2 && responses[1]
            == ResponseView::Exists(false)),
    ensures
        run(ActivateFlowView::Asking { platform }, responses) == ActivateFlowView::Finished(
            Err(RegistryErrorView::EnvironmentNotFound { name }),
        ),
        forall|n: int|
            0 <= n <= responses.len() ==> !starts_process(
                #[trigger] run(ActivateFlowView::Asking { platform }, responses.take(n)).pending(),
            ),
        !is_environment_name(name, platform) ==> forall|n: int|
            0 <= n <= responses.len() ==> environment_of(
                #[trigger] run(ActivateFlowView::Asking { platform }, responses.take(n)).pending(),
            ) is None,
{
    let start = ActivateFlowView::Asking { platform };
    let m: int = if is_environment_name(name, platform) { 2 } else { 1 };
    run_unfolds(start, responses, 0);
    if m == 2 {
        run_unfolds(start, responses, 1);
    }
    assert forall|n: int| m <= n <= responses.len() implies #[trigger] run(
        start,
        responses.take(n),
    ) == run(start, responses.take(m)) by {
        run_stays(start, responses, m, n);
    }
    assert(responses.take(responses.len() as int) =~= responses);
}

/// The environment that an activation is about has a name that an
/// environment can have, and the activation is on the system it began on.
pub open spec fn keeps_to_names(state: ActivateFlowView, platform: Platform) -> bool {
    match state {
        ActivateFlowView::Asking { platform: kept } => kept == platform,
        ActivateFlowView::ProbingEnvironment { name } => is_environment_name(name, platform),
        ActivateFlowView::ProbingScript { name } => is_environment_name(name, platform),
        ActivateFlowView::ReadingConfig { name } => is_environment_name(name, platform),
        ActivateFlowView::Entering { name, .. } => is_environment_name(name, platform),
        ActivateFlowView::Finished(_) => true,
    }
}

/// Every environment that an activation asks about has a name that an
/// environment can have, whatever the answers.
pub proof fn activation_names_environments(
    platform: Platform,
    responses: Seq<ResponseView>,
    n: int,
)
    requires
        0 <= n <= responses.len(),
    ensures
        keeps_to_names(run(ActivateFlowView::Asking { platform }, responses.take(n)), platform),
        environment_of(run(ActivateFlowView::Asking { platform }, responses.take(n)).pending())
            matches Some(name) ==> is_environment_name(name, platform),
    decreases n,
{
    let start = ActivateFlowView::Asking { platform };
    if n == 0 {
        assert(responses.take(0).len() == 0);
    } else {
        activation_names_environments(platform, responses, n - 1);
        run_unfolds(start, responses, n - 1);
    }
}

} // verus!
