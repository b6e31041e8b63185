//! What a flow and its driver say to each other.
//!
//! A flow never touches the file system, a process or the terminal. It names
//! the one outside action it needs next as a [`Request`]; the driver performs
//! it and hands back a [`Response`]; the flow decides what follows. When a
//! flow is over it holds a result: an [`Outcome`] or a
//! [`RegistryError`](crate::error::RegistryError).

use vstd::prelude::*;
use crate::config::{EnvironmentRecord, RecordView};
use crate::error::{RegistryError, RegistryErrorView};
use crate::text::views;

verus! {

/// One entry of the environments directory, as the driver found it.
#[derive(Debug, PartialEq, Eq)]
pub struct ScannedEntry {
    /// The entry's file name; `None` where the name is not valid Unicode.
    pub name: Option<String>,
    /// Whether the entry is a directory.
    pub is_dir: bool,
}

/// The mathematical value of a [`ScannedEntry`].
pub struct ScannedEntryView {
    pub name: Option<Seq<char>>,
    pub is_dir: bool,
}

impl View for ScannedEntry {
    type V = ScannedEntryView;

    open spec fn view(&self) -> ScannedEntryView {
        ScannedEntryView {
            name: match self.name {
                Some(name) => Some(name@),
                None => None,
            },
            is_dir: self.is_dir,
        }
    }
}

/// One line of a listing: an environment found on disk.
#[derive(Debug, PartialEq, Eq)]
pub enum ListedEnvironment {
    /// The configuration has a record under the environment's name.
    Configured { name: String, record: EnvironmentRecord },
    /// The configuration says nothing of the environment.
    Unconfigured { name: String },
}

/// The mathematical value of a [`ListedEnvironment`].
pub enum ListedView {
    Configured { name: Seq<char>, record: RecordView },
    Unconfigured { name: Seq<char> },
}

impl View for ListedEnvironment {
    type V = ListedView;

    open spec fn view(&self) -> ListedView {
        match self {
            ListedEnvironment::Configured { name, record } => ListedView::Configured {
                name: name@,
                record: record@,
            },
            ListedEnvironment::Unconfigured { name } => ListedView::Unconfigured { name: name@ },
        }
    }
}

/// An outside action that a flow asks its driver to perform.
#[derive(Debug, PartialEq, Eq)]
pub enum Request {
    /// Does the environments directory exist?
    ProbeEnvironmentsDir,
    /// Does the directory of this environment exist?
    ProbeEnvironment { name: String },
    /// Does the activation script of this environment exist?
    ProbeActivationScript { name: String },
    /// Read the configuration file.
    ReadConfig,
    /// List the entries of the environments directory.
    ScanEnvironments,
    /// Ask the operator which environment to activate.
    AskEnvironmentToActivate,
    /// Ask the operator which environment to delete.
    AskEnvironmentToDelete,
    /// Ask the operator to confirm the deletion of this environment.
    AskDeletionConfirmation { name: String },
    /// Create the registry's root and its environments directory where they are missing.
    EnsureRegistry,
    /// Add this text at the end of the configuration file.
    AppendConfig { text: String },
    /// Run the environment-creation tool on the directory of this environment.
    CreateEnvironment { name: String },
    /// Run this environment's package installer on these packages.
    InstallPackages { name: String, packages: Vec<String> },
    /// Remove the directory of this environment with all that it holds.
    RemoveEnvironment { name: String },
    /// Replace the configuration file's content by this text.
    WriteConfig { text: String },
    /// Show the record, if there is one, and hand the terminal to a shell
    /// in which this environment is active, until that shell ends.
    EnterShell { name: String, record: Option<EnvironmentRecord> },
}

/// The mathematical value of a [`Request`].
pub enum RequestView {
    ProbeEnvironmentsDir,
    ProbeEnvironment { name: Seq<char> },
    ProbeActivationScript { name: Seq<char> },
    ReadConfig,
    ScanEnvironments,
    AskEnvironmentToActivate,
    AskEnvironmentToDelete,
    AskDeletionConfirmation { name: Seq<char> },
    EnsureRegistry,
    AppendConfig { text: Seq<char> },
    CreateEnvironment { name: Seq<char> },
    InstallPackages { name: Seq<char>, packages: Seq<Seq<char>> },
    RemoveEnvironment { name: Seq<char> },
    WriteConfig { text: Seq<char> },
    EnterShell { name: Seq<char>, record: Option<RecordView> },
}

impl View for Request {
    type V = RequestView;

    open spec fn view(&self) -> RequestView {
        match self {
            Request::ProbeEnvironmentsDir => RequestView::ProbeEnvironmentsDir,
            Request::ProbeEnvironment { name } => RequestView::ProbeEnvironment { name: name@ },
            Request::ProbeActivationScript { name } => RequestView::ProbeActivationScript {
                name: name@,
            },
            Request::ReadConfig => RequestView::ReadConfig,
            Request::ScanEnvironments => RequestView::ScanEnvironments,
            Request::AskEnvironmentToActivate => RequestView::AskEnvironmentToActivate,
            Request::AskEnvironmentToDelete => RequestView::AskEnvironmentToDelete,
            Request::AskDeletionConfirmation { name } => RequestView::AskDeletionConfirmation {
                name: name@,
            },
            Request::EnsureRegistry => RequestView::EnsureRegistry,
            Request::AppendConfig { text } => RequestView::AppendConfig { text: text@ },
            Request::CreateEnvironment { name } => RequestView::CreateEnvironment { name: name@ },
            Request::InstallPackages { name, packages } => RequestView::InstallPackages {
                name: name@,
                packages: views(packages@),
            },
            Request::RemoveEnvironment { name } => RequestView::RemoveEnvironment { name: name@ },
            Request::WriteConfig { text } => RequestView::WriteConfig { text: text@ },
            Request::EnterShell { name, record } => RequestView::EnterShell {
                name: name@,
                record: match record {
                    Some(record) => Some(record@),
                    None => None,
                },
            },
        }
    }
}

/// What the driver found or did, in answer to a [`Request`].
#[derive(Debug, PartialEq, Eq)]
pub enum Response {
    /// Answers a probe: whether the path exists.
    Exists(bool),
    /// Answers `ReadConfig`: the file's text, or `None` where it could not be read.
    ConfigText(Option<String>),
    /// Answers `ScanEnvironments`: the entries, or the system's message on
    /// why the directory could not be listed.
    Scanned(Result<Vec<ScannedEntry>, String>),
    /// Answers a question: the line that the operator typed.
    Answer(String),
    /// Answers an action without a result of its own: done, or the system's
    /// message on why not. Also answers a tool that could not be started.
    Completed(Result<(), String>),
    /// Answers a tool that ran: whether it exited with success, and what it
    /// wrote as diagnostics.
    ToolExited { success: bool, diagnostic: String },
}

/// The mathematical value of a [`Response`].
pub enum ResponseView {
    Exists(bool),
    ConfigText(Option<Seq<char>>),
    Scanned(Result<Seq<ScannedEntryView>, Seq<char>>),
    Answer(Seq<char>),
    Completed(Result<(), Seq<char>>),
    ToolExited { success: bool, diagnostic: Seq<char> },
}

impl View for Response {
    type V = ResponseView;

    open spec fn view(&self) -> ResponseView {
        match self {
            Response::Exists(found) => ResponseView::Exists(*found),
            Response::ConfigText(text) => ResponseView::ConfigText(
                match text {
                    Some(text) => Some(text@),
                    None => None,
                },
            ),
            Response::Scanned(entries) => ResponseView::Scanned(
                match entries {
                    Ok(entries) => Ok(views(entries@)),
                    Err(diagnostic) => Err(diagnostic@),
                },
            ),
            Response::Answer(line) => ResponseView::Answer(line@),
            Response::Completed(result) => ResponseView::Completed(
                match result {
                    Ok(_) => Ok(()),
                    Err(diagnostic) => Err(diagnostic@),
                },
            ),
            Response::ToolExited { success, diagnostic } => ResponseView::ToolExited {
                success: *success,
                diagnostic: diagnostic@,
            },
        }
    }
}

/// How an operation ended when it did not fail.
#[derive(Debug, PartialEq, Eq)]
pub enum Outcome {
    /// The environments directory does not exist: no environment was ever created.
    NoEnvironmentsFound,
    /// The environments on disk, in the order of the scan, each with its record if it has one.
    Listed { environments: Vec<ListedEnvironment> },
    /// The names of the environments on disk, in the order of the scan.
    Names { names: Vec<String> },
    /// The shell of the environment has ended.
    Activated { name: String },
    /// The operator did not confirm; nothing was deleted.
    DeletionCancelled,
    /// The environment's directory and its record are gone.
    Deleted { name: String },
    /// The environment exists, with its packages installed.
    Created { name: String },
}

/// The mathematical value of an [`Outcome`].
pub enum OutcomeView {
    NoEnvironmentsFound,
    Listed { environments: Seq<ListedView> },
    Names { names: Seq<Seq<char>> },
    Activated { name: Seq<char> },
    DeletionCancelled,
    Deleted { name: Seq<char> },
    Created { name: Seq<char> },
}

impl View for Outcome {
    type V = OutcomeView;

    open spec fn view(&self) -> OutcomeView {
        match self {
            Outcome::NoEnvironmentsFound => OutcomeView::NoEnvironmentsFound,
            Outcome::Listed { environments } => OutcomeView::Listed {
                environments: views(environments@),
            },
            Outcome::Names { names } => OutcomeView::Names { names: views(names@) },
            Outcome::Activated { name } => OutcomeView::Activated { name: name@ },
            Outcome::DeletionCancelled => OutcomeView::DeletionCancelled,
            Outcome::Deleted { name } => OutcomeView::Deleted { name: name@ },
            Outcome::Created { name } => OutcomeView::Created { name: name@ },
        }
    }
}

/// The result that a finished flow holds.
pub type Ending = Result<Outcome, RegistryError>;

/// The mathematical value of an [`Ending`].
pub type EndingView = Result<OutcomeView, RegistryErrorView>;

/// The mathematical value of an ending.
pub open spec fn ending_view(ending: Ending) -> EndingView {
    match ending {
        Ok(outcome) => Ok(outcome@),
        Err(error) => Err(error@),
    }
}

/// What a flow wants next.
#[derive(Debug, PartialEq, Eq)]
pub enum Step {
    /// The driver is to perform the request and answer it.
    Perform(Request),
    /// The flow is over; its state holds the result.
    Finished,
}

/// The mathematical value of a [`Step`].
pub enum StepView {
    Perform(RequestView),
    Finished,
}

impl View for Step {
    type V = StepView;

    open spec fn view(&self) -> StepView {
        match self {
            Step::Perform(request) => StepView::Perform(request@),
            Step::Finished => StepView::Finished,
        }
    }
}

/// The rules of a flow, over mathematical values: how an answer changes its
/// state, and what it wants in each state.
pub trait Flow: Sized {
    /// The state after an answer. An answer to anything but what the flow
    /// wants leaves the state as it is, and so does any answer once the flow
    /// is over.
    spec fn next(self, response: ResponseView) -> Self;

    /// What the flow wants in this state.
    spec fn pending(self) -> StepView;
}

/// The state that a flow reaches from `state` over a sequence of answers.
pub open spec fn run<F: Flow>(state: F, responses: Seq<ResponseView>) -> F
    decreases responses.len(),
{
    if responses.len() == 0 {
        state
    } else {
        run(state, responses.drop_last()).next(responses.last())
    }
}

/// A run over no answers stays where it is, and a run over one answer more
/// goes one step further.
pub proof fn run_unfolds<F: Flow>(state: F, responses: Seq<ResponseView>, n: int)
    requires
        0 <= n < responses.len(),
    ensures
        run(state, responses.take(0)) == state,
        run(state, responses.take(n + 1)) == run(state, responses.take(n)).next(responses[n]),
{
    assert(responses.take(n + 1).drop_last() =~= responses.take(n));
}

/// A flow that no answer moves any more, after `m` answers of a run, is the
/// same after any more of them.
pub proof fn run_stays<F: Flow>(state: F, responses: Seq<ResponseView>, m: int, n: int)
    requires
        0 <= m <= n <= responses.len(),
        forall|response: ResponseView| #[trigger]
            run(state, responses.take(m)).next(response) == run(state, responses.take(m)),
    ensures
        run(state, responses.take(n)) == run(state, responses.take(m)),
    decreases n - m,
{
    if n > m {
        run_stays(state, responses, m, n - 1);
        run_unfolds(state, responses, n - 1);
    }
}

/// The environment that a request is about, if it is about one.
pub open spec fn environment_of(step: StepView) -> Option<Seq<char>> {
    match step {
        StepView::Perform(request) => match request {
            RequestView::ProbeEnvironment { name } => Some(name),
            RequestView::ProbeActivationScript { name } => Some(name),
            RequestView::AskDeletionConfirmation { name } => Some(name),
            RequestView::CreateEnvironment { name } => Some(name),
            RequestView::InstallPackages { name, .. } => Some(name),
            RequestView::RemoveEnvironment { name } => Some(name),
            RequestView::EnterShell { name, .. } => Some(name),
            _ => None,
        },
        StepView::Finished => None,
    }
}

/// The requests that change what is on disk.
pub open spec fn changes_disk(step: StepView) -> bool {
    match step {
        StepView::Perform(request) => {
            ||| request is EnsureRegistry
            ||| request is AppendConfig
            ||| request is CreateEnvironment
            ||| request is InstallPackages
            ||| request is RemoveEnvironment
            ||| request is WriteConfig
        },
        StepView::Finished => false,
    }
}

/// The requests that start a process.
pub open spec fn starts_process(step: StepView) -> bool {
    match step {
        StepView::Perform(request) => {
            ||| request is CreateEnvironment
            ||| request is InstallPackages
            ||| request is EnterShell
        },
        StepView::Finished => false,
    }
}

} // verus!
