//! Listing: the environments on disk, each with what the configuration says
//! of it.
//!
//! Only the names found on disk are listed. A name that the configuration has
//! and the disk has not is never shown; a name that the disk has and the
//! configuration has not is shown as unconfigured.

use vstd::prelude::*;
use crate::config::{
    description_key, loaded, lookup_in, packages_key, ConfigStore, Entries, RecordView,
};
use crate::toml_api::{value_table, value_text};
use crate::error::{RegistryError, RegistryErrorView};
use crate::protocol::{
    ending_view, run, run_stays, run_unfolds, Ending, EndingView, Flow, ListedEnvironment, ListedView, Outcome,
    OutcomeView, Request, RequestView, Response, ResponseView, ScannedEntry, ScannedEntryView,
    Step, StepView,
};
use crate::scan::{directory_names, environment_names};
use crate::text::views;

verus! {

/// How one name found on disk is listed.
pub open spec fn listed(entries: Entries, name: Seq<char>) -> ListedView {
    match lookup_in(entries, name) {
        Some(record) => ListedView::Configured { name, record },
        None => ListedView::Unconfigured { name },
    }
}

/// The listing of the names found on disk, in their order.
pub open spec fn listing(entries: Entries, names: Seq<Seq<char>>) -> Seq<ListedView> {
    Seq::new(names.len(), |i: int| listed(entries, names[i]))
}

/// The listing shows no environment at all: the scan found no directory.
pub open spec fn nothing_discovered(environments: Seq<ListedView>) -> bool {
    environments.len() == 0
}

/// Lists the names found on disk against a configuration.
pub fn list_environments(store: &ConfigStore, names: &Vec<String>) -> (environments: Vec<
    ListedEnvironment,
>)
    ensures
        views(environments@) == listing(store@, views(names@)),
{
    let mut environments: Vec<ListedEnvironment> = Vec::new();
    let mut i: usize = 0;
    while i < names.len()
        invariant
            i <= names.len(),
            environments.len() == i,
            forall|j: int| 0 <= j < i ==> environments[j]@ == listed(store@, names[j]@),
        decreases names.len() - i,
    {
        let name = names[i].clone();
        let item = match store.lookup(name.as_str()) {
            Some(record) => ListedEnvironment::Configured { name, record },
            None => ListedEnvironment::Unconfigured { name },
        };
        environments.push(item);
        i += 1;
    }
    assert(views(environments@) =~= listing(store@, views(names@)));
    environments
}

/// Whether the operator is to be told that no environment was discovered:
/// exactly when the listing is empty, that is, when the environments
/// directory exists and holds no directory. A listing that shows any
/// environment, configured or not, is not followed by that report.
pub fn none_discovered(environments: &Vec<ListedEnvironment>) -> (r: bool)
    ensures
        r == (views(environments@).len() == 0),
        r == nothing_discovered(views(environments@)),
{
    environments.len() == 0
}

/// The state of a listing.
#[derive(Debug, PartialEq)]
pub enum ListFlow {
    /// Waiting to learn whether the environments directory exists.
    Probing,
    /// Waiting for the configuration file's text.
    ReadingConfig,
    /// Waiting for the entries of the environments directory.
    Scanning { store: ConfigStore },
    /// Over.
    Finished(Ending),
}

/// The mathematical value of a [`ListFlow`].
pub enum ListFlowView {
    Probing,
    ReadingConfig,
    Scanning { store: Entries },
    Finished(EndingView),
}

impl View for ListFlow {
    type V = ListFlowView;

    open spec fn view(&self) -> ListFlowView {
        match self {
            ListFlow::Probing => ListFlowView::Probing,
            ListFlow::ReadingConfig => ListFlowView::ReadingConfig,
            ListFlow::Scanning { store } => ListFlowView::Scanning { store: store@ },
            ListFlow::Finished(ending) => ListFlowView::Finished(ending_view(*ending)),
        }
    }
}

impl Flow for ListFlowView {
    open spec fn next(self, response: ResponseView) -> ListFlowView {
        match self {
            ListFlowView::Probing => match response {
                ResponseView::Exists(found) => if found {
                    ListFlowView::ReadingConfig
                } else {
                    ListFlowView::Finished(Ok(OutcomeView::NoEnvironmentsFound))
                },
                _ => self,
            },
            ListFlowView::ReadingConfig => match response {
                ResponseView::ConfigText(None) => ListFlowView::Finished(
                    Err(RegistryErrorView::ConfigUnreadable),
                ),
                ResponseView::ConfigText(Some(text)) => match loaded(text) {
                    Some(store) => ListFlowView::Scanning { store },
                    None => ListFlowView::Finished(Err(RegistryErrorView::ConfigMalformed)),
                },
                _ => self,
            },
            ListFlowView::Scanning { store } => match response {
                ResponseView::Scanned(Err(diagnostic)) => ListFlowView::Finished(
                    Err(RegistryErrorView::DirectoryUnreadable { diagnostic }),
                ),
                ResponseView::Scanned(Ok(entries)) => ListFlowView::Finished(
                    Ok(
                        OutcomeView::Listed {
                            environments: listing(store, directory_names(entries)),
                        },
                    ),
                ),
                _ => self,
            },
            ListFlowView::Finished(_) => self,
        }
    }

    open spec fn pending(self) -> StepView {
        match self {
            ListFlowView::Probing => StepView::Perform(RequestView::ProbeEnvironmentsDir),
            ListFlowView::ReadingConfig => StepView::Perform(RequestView::ReadConfig),
            ListFlowView::Scanning { .. } => StepView::Perform(RequestView::ScanEnvironments),
            ListFlowView::Finished(_) => StepView::Finished,
        }
    }
}

impl ListFlow {
    /// A listing that has asked for nothing yet.
    pub fn begin() -> (flow: ListFlow)
        ensures
            flow@ == ListFlowView::Probing,
    {
        ListFlow::Probing
    }

    /// What the listing wants next.
    pub fn pending(&self) -> (step: Step)
        ensures
            step@ == self@.pending(),
    {
        match self {
            ListFlow::Probing => Step::Perform(Request::ProbeEnvironmentsDir),
            ListFlow::ReadingConfig => Step::Perform(Request::ReadConfig),
            ListFlow::Scanning { .. } => Step::Perform(Request::ScanEnvironments),
            ListFlow::Finished(_) => Step::Finished,
        }
    }

    /// The listing after an answer.
    pub fn advance(self, response: Response) -> (flow: ListFlow)
        ensures
            flow@ == self@.next(response@),
    {
        match self {
            ListFlow::Probing => match response {
                Response::Exists(found) => if found {
                    ListFlow::ReadingConfig
                } else {
                    ListFlow::Finished(Ok(Outcome::NoEnvironmentsFound))
                },
                _ => ListFlow::Probing,
            },
            ListFlow::ReadingConfig => match response {
                Response::ConfigText(None) => ListFlow::Finished(
                    Err(RegistryError::ConfigUnreadable),
                ),
                Response::ConfigText(Some(text)) => match ConfigStore::load(text.as_str()) {
                    Ok(store) => ListFlow::Scanning { store },
                    Err(error) => ListFlow::Finished(Err(error)),
                },
                _ => ListFlow::ReadingConfig,
            },
            ListFlow::Scanning { store } => match response {
                Response::Scanned(Err(diagnostic)) => ListFlow::Finished(
                    Err(RegistryError::DirectoryUnreadable { diagnostic }),
                ),
                Response::Scanned(Ok(entries)) => {
                    let names = environment_names(&entries);
                    let environments = list_environments(&store, &names);
                    ListFlow::Finished(Ok(Outcome::Listed { environments }))
                },
                _ => ListFlow::Scanning { store },
            },
            ListFlow::Finished(ending) => ListFlow::Finished(ending),
        }
    }
}

/// One step of a listing: takes the answer to what the listing wanted, and
/// gives the listing after it together with what it wants next.
///
/// The listing asks whether the environments directory exists. If it does
/// not, it ends with `NoEnvironmentsFound`. Otherwise it asks for the
/// configuration file, and fails with `ConfigUnreadable` or `ConfigMalformed`
/// where that is what it gets; then it asks for the directory's entries, fails
/// with `DirectoryUnreadable` where there are none to be had, and else ends
/// with every directory among them, listed against the configuration.
pub fn list_venvs(state: ListFlow, response: Response) -> (r: (ListFlow, Step))
    ensures
        r.0@ == state@.next(response@),
        r.1@ == r.0@.pending(),
{
    let next = state.advance(response);
    let step = next.pending();
    (next, step)
}

/// What a look at the environments directory gave.
#[derive(Debug, PartialEq, Eq)]
pub enum DirectoryScan {
    /// The directory does not exist.
    Missing,
    /// The directory exists and could not be listed; carries the system's message.
    Unreadable { diagnostic: String },
    /// The directory's entries.
    Entries(Vec<ScannedEntry>),
}

/// The mathematical value of a [`DirectoryScan`].
pub enum DirectoryScanView {
    Missing,
    Unreadable { diagnostic: Seq<char> },
    Entries(Seq<ScannedEntryView>),
}

impl View for DirectoryScan {
    type V = DirectoryScanView;

    open spec fn view(&self) -> DirectoryScanView {
        match self {
            DirectoryScan::Missing => DirectoryScanView::Missing,
            DirectoryScan::Unreadable { diagnostic } => DirectoryScanView::Unreadable {
                diagnostic: diagnostic@,
            },
            DirectoryScan::Entries(entries) => DirectoryScanView::Entries(views(entries@)),
        }
    }
}

/// What the list of names says of a look at the environments directory.
pub open spec fn names_listing(scan: DirectoryScanView) -> EndingView {
    match scan {
        DirectoryScanView::Missing => Ok(OutcomeView::NoEnvironmentsFound),
        DirectoryScanView::Unreadable { diagnostic } => Err(
            RegistryErrorView::DirectoryUnreadable { diagnostic },
        ),
        DirectoryScanView::Entries(entries) => Ok(
            OutcomeView::Names { names: directory_names(entries) },
        ),
    }
}

/// Lists the names of the environments on disk, without their records.
///
/// Ends with `NoEnvironmentsFound` where the environments directory does not
/// exist, fails with `DirectoryUnreadable` where it could not be listed, and
/// else gives the name of every directory among its entries, in their order.
pub fn list_venv_names(scan: &DirectoryScan) -> (r: Ending)
    ensures
        ending_view(r) == names_listing(scan@),
{
    match scan {
        DirectoryScan::Missing => Ok(Outcome::NoEnvironmentsFound),
        DirectoryScan::Unreadable { diagnostic } => Err(
            RegistryError::DirectoryUnreadable { diagnostic: diagnostic.clone() },
        ),
        DirectoryScan::Entries(entries) => Ok(Outcome::Names { names: environment_names(entries) }),
    }
}

/// A name on disk that the configuration does not have is listed as
/// unconfigured, and one that it has is listed with its record.
pub proof fn listing_follows_configuration(entries: Entries, names: Seq<Seq<char>>, i: int)
    requires
        0 <= i < names.len(),
    ensures
        listing(entries, names).len() == names.len(),
        !entries.contains_key(names[i]) ==> listing(entries, names)[i]
            == (ListedView::Unconfigured { name: names[i] }),
        entries.contains_key(names[i]) ==> listing(entries, names)[i] == (ListedView::Configured {
            name: names[i],
            record: lookup_in(entries, names[i])->0,
        }),
{
}

/// The listing is empty exactly when the scan found no directory: a
/// directory without a record is listed, as unconfigured, and so is not
/// followed by the report that no environment was discovered.
pub proof fn empty_listing_is_empty_scan(entries: Entries, names: Seq<Seq<char>>)
    ensures
        nothing_discovered(listing(entries, names)) <==> names.len() == 0,
        names.len() > 0 && !entries.contains_key(names[0]) ==> listing(entries, names)[0]
            is Unconfigured && !nothing_discovered(listing(entries, names)),
{
}

/// An environment whose entries in the configuration are those written on its
/// creation, and which is found on disk, is listed with exactly the
/// description and the packages that it was created with. (That the
/// configuration file's text reads back as those entries is the part of the
/// `toml` crate, and is not claimed here.)
pub proof fn created_environment_is_listed(
    entries: Entries,
    name: Seq<char>,
    record: RecordView,
    names: Seq<Seq<char>>,
    i: int,
)
    requires
        0 <= i < names.len(),
        names[i] == name,
        entries.contains_key(name),
        value_table(entries[name]) matches Some(fields) && fields.contains_key(description_key())
            && fields.contains_key(packages_key()) && value_text(fields[description_key()])
            == Some(record.description) && value_text(fields[packages_key()]) == Some(
            record.packages,
        ),
    ensures
        listing(entries, names)[i] == (ListedView::Configured { name, record }),
{
}

/// After a name has been removed from the configuration, a directory of
/// that name is listed as unconfigured, and every other name is listed as
/// before.
pub proof fn removed_environment_is_unlisted(
    entries: Entries,
    name: Seq<char>,
    names: Seq<Seq<char>>,
    i: int,
)
    requires
        0 <= i < names.len(),
    ensures
        names[i] == name ==> listing(entries.remove(name), names)[i]
            == (ListedView::Unconfigured { name }),
        names[i] != name ==> listing(entries.remove(name), names)[i] == listing(entries, names)[i],
{
}

/// Where the environments directory does not exist, a listing ends with
/// `NoEnvironmentsFound` and has asked for nothing but whether that directory
/// exists: it has read no configuration and scanned no directory, whatever
/// answers it was given afterwards.
pub proof fn missing_directory_ends_listing(responses: Seq<ResponseView>)
    requires
        responses.len() > 0,
        responses[0] == ResponseView::Exists(false),
    ensures
        run(ListFlowView::Probing, responses) == ListFlowView::Finished(
            Ok(OutcomeView::NoEnvironmentsFound),
        ),
        forall|n: int|
            0 <= n <= responses.len() ==> {
                let step = #[trigger] run(ListFlowView::Probing, responses.take(n)).pending();
                step == StepView::Perform(RequestView::ProbeEnvironmentsDir) || step
                    == StepView::Finished
            },
{
    let done = ListFlowView::Finished(Ok(OutcomeView::NoEnvironmentsFound));
    run_unfolds(ListFlowView::Probing, responses, 0);
    assert forall|n: int| 1 <= n <= responses.len() implies #[trigger] run(
        ListFlowView::Probing,
        responses.take(n),
    ) == done by {
        run_stays(ListFlowView::Probing, responses, 1, n);
    }
    assert(responses.take(responses.len() as int) =~= responses);
}

} // verus!
