//! Creation: recording a new environment in the configuration file, having
//! the outside tool build it, and installing its packages.
//!
//! The record is written before the environment is built. Where the build or
//! the installation fails afterwards, the record stays in the file. Where the
//! record could not be written, the driver says so and the environment is
//! built all the same.

use vstd::prelude::*;
use crate::config::{is_fragment, ConfigStore, EnvironmentRecord, RecordView};
use crate::error::{RegistryError, RegistryErrorView};
use crate::name::{is_environment_name, EnvironmentName};
use crate::protocol::{
    ending_view, environment_of, run, run_unfolds, Ending, EndingView, Flow, Outcome,
    OutcomeView, Request, RequestView, Response, ResponseView, Step, StepView,
};
use crate::text::{copy_texts, split_whitespace, views, words};

verus! {

/// The state of a creation.
#[derive(Debug, PartialEq, Eq)]
pub enum CreateFlow {
    /// Waiting for the registry's directories to exist.
    EnsuringRegistry { name: String, packages: String, fragment: String },
    /// Waiting for the fragment to be added to the configuration file.
    Appending { name: String, packages: String, fragment: String },
    /// Waiting for the environment-creation tool.
    Creating { name: String, packages: String },
    /// Waiting for the package installer.
    Installing { name: String, words: Vec<String> },
    /// Over.
    Finished(Ending),
}

/// The mathematical value of a [`CreateFlow`].
pub enum CreateFlowView {
    EnsuringRegistry { name: Seq<char>, packages: Seq<char>, fragment: Seq<char> },
    Appending { name: Seq<char>, packages: Seq<char>, fragment: Seq<char> },
    Creating { name: Seq<char>, packages: Seq<char> },
    Installing { name: Seq<char>, words: Seq<Seq<char>> },
    Finished(EndingView),
}

impl View for CreateFlow {
    type V = CreateFlowView;

    open spec fn view(&self) -> CreateFlowView {
        match self {
            CreateFlow::EnsuringRegistry { name, packages, fragment } =>
                CreateFlowView::EnsuringRegistry {
                    name: name@,
                    packages: packages@,
                    fragment: fragment@,
                },
            CreateFlow::Appending { name, packages, fragment } => CreateFlowView::Appending {
                name: name@,
                packages: packages@,
                fragment: fragment@,
            },
            CreateFlow::Creating { name, packages } => CreateFlowView::Creating {
                name: name@,
                packages: packages@,
            },
            CreateFlow::Installing { name, words } => CreateFlowView::Installing {
                name: name@,
                words: views(words@),
            },
            CreateFlow::Finished(ending) => CreateFlowView::Finished(ending_view(*ending)),
        }
    }
}

/// Where a creation starts, given what `toml` writes for the new
/// environment's fragment: with that text and a line end as what is to be
/// added to the configuration file, or failed where there is no such text.
pub open spec fn create_start(
    name: Seq<char>,
    packages: Seq<char>,
    rendering: Option<Seq<char>>,
) -> CreateFlowView {
    match rendering {
        Some(text) => CreateFlowView::EnsuringRegistry {
            name,
            packages,
            fragment: text + seq!['\n'],
        },
        None => CreateFlowView::Finished(Err(RegistryErrorView::ConfigUnwritable)),
    }
}

/// What follows the environment-creation tool's success: the installation of
/// the packages where the package list is not empty, and else the end.
pub open spec fn after_creation(name: Seq<char>, packages: Seq<char>) -> CreateFlowView {
    if packages.len() > 0 {
        CreateFlowView::Installing { name, words: words(packages) }
    } else {
        CreateFlowView::Finished(Ok(OutcomeView::Created { name }))
    }
}

impl Flow for CreateFlowView {
    open spec fn next(self, response: ResponseView) -> CreateFlowView {
        match self {
            CreateFlowView::EnsuringRegistry { name, packages, fragment } => match response {
                ResponseView::Completed(Ok(_)) => CreateFlowView::Appending {
                    name,
                    packages,
                    fragment,
                },
                ResponseView::Completed(Err(diagnostic)) => CreateFlowView::Finished(
                    Err(RegistryErrorView::Io { diagnostic }),
                ),
                _ => self,
            },
            CreateFlowView::Appending { name, packages, fragment } => match response {
                ResponseView::Completed(_) => CreateFlowView::Creating { name, packages },
                _ => self,
            },
            CreateFlowView::Creating { name, packages } => match response {
                ResponseView::ToolExited { success, diagnostic } => if success {
                    after_creation(name, packages)
                } else {
                    CreateFlowView::Finished(
                        Err(RegistryErrorView::EnvironmentCreationFailed { diagnostic }),
                    )
                },
                ResponseView::Completed(Err(diagnostic)) => CreateFlowView::Finished(
                    Err(RegistryErrorView::Io { diagnostic }),
                ),
                _ => self,
            },
            CreateFlowView::Installing { name, words } => match response {
                ResponseView::ToolExited { success, diagnostic } => if success {
                    CreateFlowView::Finished(Ok(OutcomeView::Created { name }))
                } else {
                    CreateFlowView::Finished(
                        Err(RegistryErrorView::PackageInstallationFailed { diagnostic }),
                    )
                },
                ResponseView::Completed(Err(diagnostic)) => CreateFlowView::Finished(
                    Err(RegistryErrorView::Io { diagnostic }),
                ),
                _ => self,
            },
            CreateFlowView::Finished(_) => self,
        }
    }

    open spec fn pending(self) -> StepView {
        match self {
            CreateFlowView::EnsuringRegistry { .. } => StepView::Perform(
                RequestView::EnsureRegistry,
            ),
            CreateFlowView::Appending { fragment, .. } => StepView::Perform(
                RequestView::AppendConfig { text: fragment },
            ),
            CreateFlowView::Creating { name, .. } => StepView::Perform(
                RequestView::CreateEnvironment { name },
            ),
            CreateFlowView::Installing { name, words } => StepView::Perform(
                RequestView::InstallPackages { name, packages: words },
            ),
            CreateFlowView::Finished(_) => StepView::Finished,
        }
    }
}

impl CreateFlow {
    /// The creation of an environment with this name, description and
    /// package list, before anything has been asked for.
    ///
    /// The name is one that an environment can have: the empty text, `.`,
    /// `..` and a text with a separator cannot get here. It is not checked
    /// against the environments that exist. The creation has failed at once,
    /// with `ConfigUnwritable`, exactly when `toml` cannot write the new
    /// environment's fragment.
    pub fn begin(name: EnvironmentName, description: String, packages: String) -> (flow:
        CreateFlow)
        ensures
            is_environment_name(name@, name.system()),
            exists|rendering: Option<Seq<char>>| #[trigger]
                is_fragment(
                    rendering,
                    name@,
                    RecordView { description: description@, packages: packages@ },
                ) && flow@ == create_start(name@, packages@, rendering),
    {
        let name = name.into_text();
        let record = EnvironmentRecord { description, packages: packages.clone() };
        match ConfigStore::fragment(name.clone(), &record) {
            Ok(text) => {
                let ghost rendering = Some(text@);
                let fragment = text.concat("\n");
                proof {
                    reveal_strlit("\n");
                    assert("\n"@ =~= seq!['\n']);
                    assert(is_fragment(rendering, name@, record@));
                }
                CreateFlow::EnsuringRegistry { name, packages, fragment }
            },
            Err(error) => {
                assert(is_fragment(None, name@, record@));
                CreateFlow::Finished(Err(error))
            },
        }
    }

    /// What the creation wants next.
    pub fn pending(&self) -> (step: Step)
        ensures
            step@ == self@.pending(),
    {
        match self {
            CreateFlow::EnsuringRegistry { .. } => Step::Perform(Request::EnsureRegistry),
            CreateFlow::Appending { fragment, .. } => Step::Perform(
                Request::AppendConfig { text: fragment.clone() },
            ),
            CreateFlow::Creating { name, .. } => Step::Perform(
                Request::CreateEnvironment { name: name.clone() },
            ),
            CreateFlow::Installing { name, words } => Step::Perform(
                Request::InstallPackages { name: name.clone(), packages: copy_texts(words) },
            ),
            CreateFlow::Finished(_) => Step::Finished,
        }
    }

    /// The creation after an answer.
    pub fn advance(self, response: Response) -> (flow: CreateFlow)
        ensures
            flow@ == self@.next(response@),
    {
        match self {
            CreateFlow::EnsuringRegistry { name, packages, fragment } => match response {
                Response::Completed(Ok(_)) => CreateFlow::Appending { name, packages, fragment },
                Response::Completed(Err(diagnostic)) => CreateFlow::Finished(
                    Err(RegistryError::Io { diagnostic }),
                ),
                _ => CreateFlow::EnsuringRegistry { name, packages, fragment },
            },
            CreateFlow::Appending { name, packages, fragment } => match response {
                Response::Completed(_) => CreateFlow::Creating { name, packages },
                _ => CreateFlow::Appending { name, packages, fragment },
            },
            CreateFlow::Creating { name, packages } => match response {
                Response::ToolExited { success, diagnostic } => if success {
                    if packages.as_str().is_empty() {
                        CreateFlow::Finished(Ok(Outcome::Created { name }))
                    } else {
                        let words = split_whitespace(packages.as_str());
                        CreateFlow::Installing { name, words }
                    }
                } else {
                    CreateFlow::Finished(
                        Err(RegistryError::EnvironmentCreationFailed { diagnostic }),
                    )
                },
                Response::Completed(Err(diagnostic)) => CreateFlow::Finished(
                    Err(RegistryError::Io { diagnostic }),
                ),
                _ => CreateFlow::Creating { name, packages },
            },
            CreateFlow::Installing { name, words } => match response {
                Response::ToolExited { success, diagnostic } => if success {
                    CreateFlow::Finished(Ok(Outcome::Created { name }))
                } else {
                    CreateFlow::Finished(
                        Err(RegistryError::PackageInstallationFailed { diagnostic }),
                    )
                },
                Response::Completed(Err(diagnostic)) => CreateFlow::Finished(
                    Err(RegistryError::Io { diagnostic }),
                ),
                _ => CreateFlow::Installing { name, words },
            },
            CreateFlow::Finished(ending) => CreateFlow::Finished(ending),
        }
    }
}

/// One step of a creation: takes the answer to what the creation wanted, and
/// gives the creation after it together with what it wants next.
///
/// The creation has the registry's directories made, then the new
/// environment's fragment added to the configuration file, then the
/// environment built, whether or not the fragment could be added: it fails
/// with `EnvironmentCreationFailed`, carrying the
/// tool's diagnostics, where the tool exits with a failure. Where the package
/// list is not empty it then has the list's words installed, and fails with
/// `PackageInstallationFailed`, carrying the installer's diagnostics, where
/// the installer exits with a failure. Directories that could not be made
/// and a tool that could not be started fail it with `Io`. Otherwise it ends
/// with `Created`.
pub fn create_env(state: CreateFlow, response: Response) -> (r: (CreateFlow, Step))
    ensures
        r.0@ == state@.next(response@),
        r.1@ == r.0@.pending(),
{
    let next = state.advance(response);
    let step = next.pending();
    (next, step)
}

/// The states that a creation with an empty package list passes through.
pub open spec fn installs_nothing(state: CreateFlowView) -> bool {
    match state {
        CreateFlowView::EnsuringRegistry { packages, .. } => packages.len() == 0,
        CreateFlowView::Appending { packages, .. } => packages.len() == 0,
        CreateFlowView::Creating { packages, .. } => packages.len() == 0,
        CreateFlowView::Installing { .. } => false,
        CreateFlowView::Finished(_) => true,
    }
}

/// With an empty package list a creation never wants the installer run,
/// whatever answers it is given, and the environment-creation tool's success
/// ends it with `Created`.
pub proof fn empty_package_list_installs_nothing(
    name: Seq<char>,
    rendering: Seq<char>,
    responses: Seq<ResponseView>,
    n: int,
    diagnostic: Seq<char>,
)
    requires
        0 <= n <= responses.len(),
    ensures
        !(run(create_start(name, Seq::empty(), Some(rendering)), responses.take(n)).pending()
            matches StepView::Perform(request) && request is InstallPackages),
        installs_nothing(
            run(create_start(name, Seq::empty(), Some(rendering)), responses.take(n)),
        ),
        (CreateFlowView::Creating { name, packages: Seq::empty() }).next(
            ResponseView::ToolExited { success: true, diagnostic },
        ) == CreateFlowView::Finished(Ok(OutcomeView::Created { name })),
    decreases n,
{
    let start = create_start(name, Seq::empty(), Some(rendering));
    if n == 0 {
        assert(responses.take(0).len() == 0);
    } else {
        empty_package_list_installs_nothing(name, rendering, responses, n - 1, diagnostic);
        run_unfolds(start, responses, n - 1);
    }
}

/// A creation whose every action succeeds asks, in this order, for the
/// registry's directories, for the fragment to be added to the configuration
/// file, for the environment to be built and, where the package list is not
/// empty, for its words to be installed; then it ends with `Created`.
pub proof fn creation_succeeds(
    name: Seq<char>,
    packages: Seq<char>,
    rendering: Seq<char>,
    first: Seq<char>,
    second: Seq<char>,
)
    ensures
        ({
            let start = create_start(name, packages, Some(rendering));
            let done = ResponseView::Completed(Ok(()));
            let built = ResponseView::ToolExited { success: true, diagnostic: first };
            let installed = ResponseView::ToolExited { success: true, diagnostic: second };
            let created = CreateFlowView::Finished(Ok(OutcomeView::Created { name }));
            &&& start.pending() == StepView::Perform(RequestView::EnsureRegistry)
            &&& start.next(done).pending() == StepView::Perform(
                RequestView::AppendConfig { text: rendering + seq!['\n'] },
            )
            &&& start.next(done).next(done).pending() == StepView::Perform(
                RequestView::CreateEnvironment { name },
            )
            &&& packages.len() == 0 ==> start.next(done).next(done).next(built) == created
            &&& packages.len() > 0 ==> start.next(done).next(done).next(built).pending()
                == StepView::Perform(
                RequestView::InstallPackages { name, packages: words(packages) },
            )
            &&& packages.len() > 0 ==> start.next(done).next(done).next(built).next(installed)
                == created
        }),
{
}

/// The states of a creation that is about the environment of a given name.
pub open spec fn is_about(state: CreateFlowView, environment: Seq<char>) -> bool {
    match state {
        CreateFlowView::EnsuringRegistry { name, .. } => name == environment,
        CreateFlowView::Appending { name, .. } => name == environment,
        CreateFlowView::Creating { name, .. } => name == environment,
        CreateFlowView::Installing { name, .. } => name == environment,
        CreateFlowView::Finished(_) => true,
    }
}

/// Every environment that a creation asks about is the one whose name it
/// was begun with, whatever the answers: it builds no other directory and
/// installs into no other.
pub proof fn creation_names_its_environment(
    name: Seq<char>,
    packages: Seq<char>,
    rendering: Option<Seq<char>>,
    responses: Seq<ResponseView>,
    n: int,
)
    requires
        0 <= n <= responses.len(),
    ensures
        is_about(run(create_start(name, packages, rendering), responses.take(n)), name),
        environment_of(run(create_start(name, packages, rendering), responses.take(n)).pending())
            matches Some(asked) ==> asked == name,
    decreases n,
{
    let start = create_start(name, packages, rendering);
    if n == 0 {
        assert(responses.take(0).len() == 0);
    } else {
        creation_names_its_environment(name, packages, rendering, responses, n - 1);
        run_unfolds(start, responses, n - 1);
    }
}

} // verus!
