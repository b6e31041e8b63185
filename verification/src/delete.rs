//! Deletion: removing a chosen environment from the disk and from the
//! configuration file, after the operator has confirmed it.
//!
//! Everything that can refuse the deletion is looked at before anything is
//! removed: the environment's directory, the configuration file, and the
//! operator's answer. The directory goes first, the record second. Where the
//! configuration cannot be written after the directory is gone, the record
//! stays in the file.

use vstd::prelude::*;
use crate::config::{loaded, ConfigStore, Entries};
use crate::error::{RegistryError, RegistryErrorView};
use crate::name::{environment_name, is_environment_name};
use crate::paths::Platform;
use crate::protocol::{
    changes_disk, ending_view, environment_of, run, run_stays, run_unfolds, Ending, EndingView,
    Flow, Outcome, OutcomeView, Request, RequestView, Response, ResponseView, Step, StepView,
};
use crate::text::{is_confirmation, is_yes};
use crate::toml_api::rendered_pretty;

verus! {

/// The state of a deletion.
#[derive(Debug, PartialEq)]
pub enum DeleteFlow {
    /// Waiting for the operator to choose an environment.
    Asking { platform: Platform },
    /// Waiting to learn whether the environment's directory exists.
    ProbingEnvironment { name: String },
    /// Waiting for the configuration file's text.
    ReadingConfig { name: String },
    /// Waiting for the operator to confirm.
    Confirming { name: String, store: ConfigStore },
    /// Waiting for the environment's directory to be removed.
    Removing { name: String, store: ConfigStore },
    /// Waiting for the configuration file to be written.
    Writing { name: String, text: String },
    /// Over.
    Finished(Ending),
}

/// The mathematical value of a [`DeleteFlow`].
pub enum DeleteFlowView {
    Asking { platform: Platform },
    ProbingEnvironment { name: Seq<char> },
    ReadingConfig { name: Seq<char> },
    Confirming { name: Seq<char>, store: Entries },
    Removing { name: Seq<char>, store: Entries },
    Writing { name: Seq<char>, text: Seq<char> },
    Finished(EndingView),
}

impl View for DeleteFlow {
    type V = DeleteFlowView;

    open spec fn view(&self) -> DeleteFlowView {
        match self {
            DeleteFlow::Asking { platform } => DeleteFlowView::Asking { platform: *platform },
            DeleteFlow::ProbingEnvironment { name } => DeleteFlowView::ProbingEnvironment {
                name: name@,
            },
            DeleteFlow::ReadingConfig { name } => DeleteFlowView::ReadingConfig { name: name@ },
            DeleteFlow::Confirming { name, store } => DeleteFlowView::Confirming {
                name: name@,
                store: store@,
            },
            DeleteFlow::Removing { name, store } => DeleteFlowView::Removing {
                name: name@,
                store: store@,
            },
            DeleteFlow::Writing { name, text } => DeleteFlowView::Writing {
                name: name@,
                text: text@,
            },
            DeleteFlow::Finished(ending) => DeleteFlowView::Finished(ending_view(*ending)),
        }
    }
}

/// What follows the removal of the environment's directory: the writing of
/// the configuration without the environment's name, or the failure to
/// render it.
pub open spec fn after_removal(name: Seq<char>, store: Entries) -> DeleteFlowView {
    match rendered_pretty(store.remove(name)) {
        Some(text) => DeleteFlowView::Writing { name, text },
        None => DeleteFlowView::Finished(Err(RegistryErrorView::ConfigUnwritable)),
    }
}

impl Flow for DeleteFlowView {
    open spec fn next(self, response: ResponseView) -> DeleteFlowView {
        match self {
            DeleteFlowView::Asking { platform } => match response {
                ResponseView::Answer(name) => if is_environment_name(name, platform) {
                    DeleteFlowView::ProbingEnvironment { name }
                } else {
                    DeleteFlowView::Finished(Err(RegistryErrorView::EnvironmentNotFound { name }))
                },
                _ => self,
            },
            DeleteFlowView::ProbingEnvironment { name } => match response {
                ResponseView::Exists(found) => if found {
                    DeleteFlowView::ReadingConfig { name }
                } else {
                    DeleteFlowView::Finished(Err(RegistryErrorView::EnvironmentNotFound { name }))
                },
                _ => self,
            },
            DeleteFlowView::ReadingConfig { name } => match response {
                ResponseView::ConfigText(None) => DeleteFlowView::Finished(
                    Err(RegistryErrorView::ConfigUnreadable),
                ),
                ResponseView::ConfigText(Some(text)) => match loaded(text) {
                    Some(store) => DeleteFlowView::Confirming { name, store },
                    None => DeleteFlowView::Finished(Err(RegistryErrorView::ConfigMalformed)),
                },
                _ => self,
            },
            DeleteFlowView::Confirming { name, store } => match response {
                ResponseView::Answer(answer) => if is_yes(answer) {
                    DeleteFlowView::Removing { name, store }
                } else {
                    DeleteFlowView::Finished(Ok(OutcomeView::DeletionCancelled))
                },
                _ => self,
            },
            DeleteFlowView::Removing { name, store } => match response {
                ResponseView::Completed(Ok(_)) => after_removal(name, store),
                ResponseView::Completed(Err(diagnostic)) => DeleteFlowView::Finished(
                    Err(RegistryErrorView::Io { diagnostic }),
                ),
                _ => self,
            },
            DeleteFlowView::Writing { name, text } => match response {
                ResponseView::Completed(Ok(_)) => DeleteFlowView::Finished(
                    Ok(OutcomeView::Deleted { name }),
                ),
                ResponseView::Completed(Err(diagnostic)) => DeleteFlowView::Finished(
                    Err(RegistryErrorView::Io { diagnostic }),
                ),
                _ => self,
            },
            DeleteFlowView::Finished(_) => self,
        }
    }

    open spec fn pending(self) -> StepView {
        match self {
            DeleteFlowView::Asking { .. } => StepView::Perform(
                RequestView::AskEnvironmentToDelete,
            ),
            DeleteFlowView::ProbingEnvironment { name } => StepView::Perform(
                RequestView::ProbeEnvironment { name },
            ),
            DeleteFlowView::ReadingConfig { .. } => StepView::Perform(RequestView::ReadConfig),
            DeleteFlowView::Confirming { name, .. } => StepView::Perform(
                RequestView::AskDeletionConfirmation { name },
            ),
            DeleteFlowView::Removing { name, .. } => StepView::Perform(
                RequestView::RemoveEnvironment { name },
            ),
            DeleteFlowView::Writing { text, .. } => StepView::Perform(
                RequestView::WriteConfig { text },
            ),
            DeleteFlowView::Finished(_) => StepView::Finished,
        }
    }
}

impl DeleteFlow {
    /// A deletion that has asked for nothing yet, on a system of the given kind.
    pub fn begin(platform: Platform) -> (flow: DeleteFlow)
        ensures
            flow@ == (DeleteFlowView::Asking { platform }),
    {
        DeleteFlow::Asking { platform }
    }

    /// What the deletion wants next.
    pub fn pending(&self) -> (step: Step)
        ensures
            step@ == self@.pending(),
    {
        match self {
            DeleteFlow::Asking { .. } => Step::Perform(Request::AskEnvironmentToDelete),
            DeleteFlow::ProbingEnvironment { name } => Step::Perform(
                Request::ProbeEnvironment { name: name.clone() },
            ),
            DeleteFlow::ReadingConfig { .. } => Step::Perform(Request::ReadConfig),
            DeleteFlow::Confirming { name, .. } => Step::Perform(
                Request::AskDeletionConfirmation { name: name.clone() },
            ),
            DeleteFlow::Removing { name, .. } => Step::Perform(
                Request::RemoveEnvironment { name: name.clone() },
            ),
            DeleteFlow::Writing { text, .. } => Step::Perform(
                Request::WriteConfig { text: text.clone() },
            ),
            DeleteFlow::Finished(_) => Step::Finished,
        }
    }

    /// The deletion after an answer.
    pub fn advance(self, response: Response) -> (flow: DeleteFlow)
        ensures
            flow@ == self@.next(response@),
    {
        match self {
            DeleteFlow::Asking { platform } => match response {
                Response::Answer(name) => if environment_name(name.as_str(), platform) {
                    DeleteFlow::ProbingEnvironment { name }
                } else {
                    DeleteFlow::Finished(Err(RegistryError::EnvironmentNotFound { name }))
                },
                _ => DeleteFlow::Asking { platform },
            },
            DeleteFlow::ProbingEnvironment { name } => match response {
                Response::Exists(found) => if found {
                    DeleteFlow::ReadingConfig { name }
                } else {
                    DeleteFlow::Finished(Err(RegistryError::EnvironmentNotFound { name }))
                },
                _ => DeleteFlow::ProbingEnvironment { name },
            },
            DeleteFlow::ReadingConfig { name } => match response {
                Response::ConfigText(None) => DeleteFlow::Finished(
                    Err(RegistryError::ConfigUnreadable),
                ),
                Response::ConfigText(Some(text)) => match ConfigStore::load(text.as_str()) {
                    Ok(store) => DeleteFlow::Confirming { name, store },
                    Err(error) => DeleteFlow::Finished(Err(error)),
                },
                _ => DeleteFlow::ReadingConfig { name },
            },
            DeleteFlow::Confirming { name, store } => match response {
                Response::Answer(answer) => if is_confirmation(answer.as_str()) {
                    DeleteFlow::Removing { name, store }
                } else {
                    DeleteFlow::Finished(Ok(Outcome::DeletionCancelled))
                },
                _ => DeleteFlow::Confirming { name, store },
            },
            DeleteFlow::Removing { name, store } => match response {
                Response::Completed(Ok(_)) => {
                    let mut store = store;
                    store.remove(name.as_str());
                    match store.render() {
                        Ok(text) => DeleteFlow::Writing { name, text },
                        Err(error) => DeleteFlow::Finished(Err(error)),
                    }
                },
                Response::Completed(Err(diagnostic)) => DeleteFlow::Finished(
                    Err(RegistryError::Io { diagnostic }),
                ),
                _ => DeleteFlow::Removing { name, store },
            },
            DeleteFlow::Writing { name, text } => match response {
                Response::Completed(Ok(_)) => DeleteFlow::Finished(Ok(Outcome::Deleted { name })),
                Response::Completed(Err(diagnostic)) => DeleteFlow::Finished(
                    Err(RegistryError::Io { diagnostic }),
                ),
                _ => DeleteFlow::Writing { name, text },
            },
            DeleteFlow::Finished(ending) => DeleteFlow::Finished(ending),
        }
    }
}

/// One step of a deletion: takes the answer to what the deletion wanted, and
/// gives the deletion after it together with what it wants next.
///
/// The deletion asks for a name. It fails with `EnvironmentNotFound` where
/// the answer is no name that an environment can have, without looking at
/// the disk, and where the name's directory does not exist; with
/// `ConfigUnreadable` or
/// `ConfigMalformed` where that is what it gets for the configuration file.
/// Then it asks for confirmation: any answer but `yes`, in whatever case,
/// ends it with `DeletionCancelled`. After `yes` it has the directory
/// removed, then the configuration written without the name, and ends with
/// `Deleted`; an action that could not be carried out fails it with `Io`, and
/// a configuration that `toml` cannot write with `ConfigUnwritable`.
pub fn delete_venv(state: DeleteFlow, response: Response) -> (r: (DeleteFlow, Step))
    ensures
        r.0@ == state@.next(response@),
        r.1@ == r.0@.pending(),
{
    let next = state.advance(response);
    let step = next.pending();
    (next, step)
}

/// The states in which a deletion has not been confirmed.
pub open spec fn unconfirmed(state: DeleteFlowView) -> bool {
    state is Asking || state is ProbingEnvironment || state is ReadingConfig || state is Confirming
}

/// The answer `yes` is given at position `k` of a run, to the question for
/// confirmation.
pub open spec fn confirmed_at(platform: Platform, responses: Seq<ResponseView>, k: int) -> bool {
    &&& 0 <= k < responses.len()
    &&& run(DeleteFlowView::Asking { platform }, responses.take(k)) is Confirming
    &&& responses[k] matches ResponseView::Answer(answer)
    &&& is_yes(answer)
}

/// A deletion changes nothing on disk before the operator has answered `yes`
/// to its question for confirmation: in a run without that answer it never
/// wants a directory removed or a file written, and it does not end with
/// `Deleted`.
pub proof fn no_change_without_consent(platform: Platform, responses: Seq<ResponseView>, n: int)
    requires
        0 <= n <= responses.len(),
        forall|k: int| 0 <= k < n ==> !confirmed_at(platform, responses, k),
    ensures
        !changes_disk(run(DeleteFlowView::Asking { platform }, responses.take(n)).pending()),
        ({
            let state = run(DeleteFlowView::Asking { platform }, responses.take(n));
            unconfirmed(state) || (state matches DeleteFlowView::Finished(ending) && (ending
                matches Ok(OutcomeView::DeletionCancelled) || ending is Err))
        }),
    decreases n,
{
    let start = DeleteFlowView::Asking { platform };
    if n == 0 {
        assert(responses.take(0).len() == 0);
    } else {
        no_change_without_consent(platform, responses, n - 1);
        run_unfolds(start, responses, n - 1);
        assert(!confirmed_at(platform, responses, n - 1));
    }
}

/// The environment that a deletion is about has a name that an environment
/// can have, and the deletion is on the system it began on.
pub open spec fn keeps_to_names(state: DeleteFlowView, platform: Platform) -> bool {
    match state {
        DeleteFlowView::Asking { platform: kept } => kept == platform,
        DeleteFlowView::ProbingEnvironment { name } => is_environment_name(name, platform),
        DeleteFlowView::ReadingConfig { name } => is_environment_name(name, platform),
        DeleteFlowView::Confirming { name, .. } => is_environment_name(name, platform),
        DeleteFlowView::Removing { name, .. } => is_environment_name(name, platform),
        DeleteFlowView::Writing { name, .. } => is_environment_name(name, platform),
        DeleteFlowView::Finished(_) => true,
    }
}

/// Every environment that a deletion asks about, and so every directory
/// that it wants removed, has a name that an environment can have, whatever
/// the answers: never the empty name, `.` or `..`, and none with a separator.
pub proof fn deletion_names_environments(
    platform: Platform,
    responses: Seq<ResponseView>,
    n: int,
)
    requires
        0 <= n <= responses.len(),
    ensures
        keeps_to_names(run(DeleteFlowView::Asking { platform }, responses.take(n)), platform),
        environment_of(run(DeleteFlowView::Asking { platform }, responses.take(n)).pending())
            matches Some(name) ==> is_environment_name(name, platform),
    decreases n,
{
    let start = DeleteFlowView::Asking { platform };
    if n == 0 {
        assert(responses.take(0).len() == 0);
    } else {
        deletion_names_environments(platform, responses, n - 1);
        run_unfolds(start, responses, n - 1);
    }
}

/// Deleting fails with `EnvironmentNotFound` where the answer is no name
/// that an environment can have, among them the empty answer, `.` and `..`,
/// and where the name's directory does not exist. In either case the
/// deletion never wants anything on disk changed, whatever answers it is
/// given afterwards: the configuration file stays as it was. For a text that
/// is no name it has not looked at the disk either.
pub proof fn missing_environment_fails_deletion(
    platform: Platform,
    name: Seq<char>,
    responses: Seq<ResponseView>,
)
    requires
        responses.len() >= 1,
        responses[0] == ResponseView::Answer(name),
        !is_environment_name(name, platform) || (responses.len() >= 2 && responses[1]
            == ResponseView::Exists(false)),
    ensures
        run(DeleteFlowView::Asking { platform }, responses) == DeleteFlowView::Finished(
            Err(RegistryErrorView::EnvironmentNotFound { name }),
        ),
        forall|n: int|
            0 <= n <= responses.len() ==> !changes_disk(
                #[trigger] run(DeleteFlowView::Asking { platform }, responses.take(n)).pending(),
            ),
        !is_environment_name(name, platform) ==> forall|n: int|
            0 <= n <= responses.len() ==> environment_of(
                #[trigger] run(DeleteFlowView::Asking { platform }, responses.take(n)).pending(),
            ) is None,
{
    let start = DeleteFlowView::Asking { platform };
    let m: int = if is_environment_name(name, platform) { 2 } else { 1 };
    run_unfolds(start, responses, 0);
    if m == 2 {
        run_unfolds(start, responses, 1);
    }
    assert forall|n: int| m <= n <= responses.len() implies #[trigger] run(
        start,
        responses.take(n),
    ) == run(start, responses.take(m)) by {
        run_stays(start, responses, m, n);
    }
    assert(responses.take(responses.len() as int) =~= responses);
}

/// A deletion that an answer other than `yes` has cancelled ends with
/// `DeletionCancelled`, and it never wants anything on disk changed,
/// whatever answers it is given afterwards. The empty answer is such an
/// answer.
pub proof fn refusal_cancels_deletion(
    platform: Platform,
    name: Seq<char>,
    text: Seq<char>,
    answer: Seq<char>,
    responses: Seq<ResponseView>,
)
    requires
        is_environment_name(name, platform),
        responses.len() >= 4,
        responses[0] == ResponseView::Answer(name),
        responses[1] == ResponseView::Exists(true),
        responses[2] == ResponseView::ConfigText(Some(text)),
        loaded(text) is Some,
        responses[3] == ResponseView::Answer(answer),
        !is_yes(answer),
    ensures
        run(DeleteFlowView::Asking { platform }, responses) == DeleteFlowView::Finished(
            Ok(OutcomeView::DeletionCancelled),
        ),
        forall|n: int|
            0 <= n <= responses.len() ==> !changes_disk(
                #[trigger] run(DeleteFlowView::Asking { platform }, responses.take(n)).pending(),
            ),
        !is_yes(Seq::empty()),
{
    let start = DeleteFlowView::Asking { platform };
    run_unfolds(start, responses, 0);
    run_unfolds(start, responses, 1);
    run_unfolds(start, responses, 2);
    run_unfolds(start, responses, 3);
    assert forall|n: int| 4 <= n <= responses.len() implies #[trigger] run(
        start,
        responses.take(n),
    ) == run(start, responses.take(4)) by {
        run_stays(start, responses, 4, n);
    }
    assert(responses.take(responses.len() as int) =~= responses);
}

/// A confirmed deletion whose every action succeeds has the directory of
/// the name removed, then has written a configuration that `toml` rendered
/// from entries without the name, and ends with `Deleted`.
pub proof fn confirmed_deletion_removes_record(
    name: Seq<char>,
    store: Entries,
    answer: Seq<char>,
    text: Seq<char>,
)
    requires
        is_yes(answer),
        rendered_pretty(store.remove(name)) == Some(text),
    ensures
        ({
            let confirming = DeleteFlowView::Confirming { name, store };
            let done = ResponseView::Completed(Ok(()));
            let removing = confirming.next(ResponseView::Answer(answer));
            &&& removing.pending() == StepView::Perform(RequestView::RemoveEnvironment { name })
            &&& removing.next(done).pending() == StepView::Perform(
                RequestView::WriteConfig { text },
            )
            &&& removing.next(done).next(done) == DeleteFlowView::Finished(
                Ok(OutcomeView::Deleted { name }),
            )
            &&& !store.remove(name).contains_key(name)
        }),
{
}

} // verus!
