//! What the provisioner asks of its host, and what the host reports back.
//!
//! The provisioner never touches the file system or the registry. It hands
//! out one [`Action`] at a time; the host performs it and answers with the
//! matching [`Event`].

use crate::error::{ProvisionError, ProvisionErrorView};
use vstd::prelude::*;

verus! {

/// Progress shown to the user while a request runs.
#[derive(Debug, Clone, Copy, PartialEq, Eq, Structural)]
pub enum InstallationStatus {
    CheckingForUpdate,
    Downloading,
}

/// One thing for the host to do.
#[derive(Debug)]
pub enum Action {
    /// Tell whether `path` is a regular file.
    ProbeFile { path: String },
    /// Show `status` to the user. Nothing comes back but the acknowledgement.
    ReportStatus { status: InstallationStatus },
    /// Ask the registry for the newest version of `package_name`.
    QueryLatestVersion { package_name: String },
    /// Ask which version of `package_name` is installed locally.
    QueryInstalledVersion { package_name: String },
    /// Install `version` of `package_name`.
    Install { package_name: String, version: String },
    /// The request is over; `result` is its answer.
    Finish { result: Result<String, ProvisionError> },
}

/// What the host observed while performing an [`Action`].
#[derive(Debug)]
pub enum Event {
    /// Answers [`Action::ProbeFile`].
    FileProbed { is_file: bool },
    /// Answers [`Action::ReportStatus`].
    StatusReported,
    /// Answers [`Action::QueryLatestVersion`].
    LatestVersion { latest: Result<String, String> },
    /// Answers [`Action::QueryInstalledVersion`].
    InstalledVersion { installed: Result<Option<String>, String> },
    /// Answers [`Action::Install`].
    InstallFinished { outcome: Result<(), String> },
}

/// Mathematical value of an [`Action`].
pub enum ActionView {
    ProbeFile { path: Seq<char> },
    ReportStatus { status: InstallationStatus },
    QueryLatestVersion { package_name: Seq<char> },
    QueryInstalledVersion { package_name: Seq<char> },
    Install { package_name: Seq<char>, version: Seq<char> },
    Finish { result: Result<Seq<char>, ProvisionErrorView> },
}

/// Mathematical value of an [`Event`].
pub enum EventView {
    FileProbed { is_file: bool },
    StatusReported,
    LatestVersion { latest: Result<Seq<char>, Seq<char>> },
    InstalledVersion { installed: Result<Option<Seq<char>>, Seq<char>> },
    InstallFinished { outcome: Result<(), Seq<char>> },
}

/// Mathematical value of an optional string.
pub open spec fn option_view(text: Option<String>) -> Option<Seq<char>> {
    match text {
        Some(text) => Some(text@),
        None => None,
    }
}

/// Mathematical value of the answer to a lookup of the installed version.
pub open spec fn lookup_view(lookup: Result<Option<String>, String>) -> Result<
    Option<Seq<char>>,
    Seq<char>,
> {
    match lookup {
        Ok(version) => Ok(option_view(version)),
        Err(message) => Err(message@),
    }
}

/// Mathematical value of the answer a request ends in.
pub open spec fn outcome_view(result: Result<String, ProvisionError>) -> Result<
    Seq<char>,
    ProvisionErrorView,
> {
    match result {
        Ok(path) => Ok(path@),
        Err(error) => Err(error@),
    }
}

impl View for Action {
    type V = ActionView;

    open spec fn view(&self) -> ActionView {
        match self {
            Action::ProbeFile { path } => ActionView::ProbeFile { path: path@ },
            Action::ReportStatus { status } => ActionView::ReportStatus { status: *status },
            Action::QueryLatestVersion { package_name } => ActionView::QueryLatestVersion {
                package_name: package_name@,
            },
            Action::QueryInstalledVersion { package_name } => ActionView::QueryInstalledVersion {
                package_name: package_name@,
            },
            Action::Install { package_name, version } => ActionView::Install {
                package_name: package_name@,
                version: version@,
            },
            Action::Finish { result } => ActionView::Finish { result: outcome_view(*result) },
        }
    }
}

impl View for Event {
    type V = EventView;

    open spec fn view(&self) -> EventView {
        match self {
            Event::FileProbed { is_file } => EventView::FileProbed { is_file: *is_file },
            Event::StatusReported => EventView::StatusReported,
            Event::LatestVersion { latest } => EventView::LatestVersion {
                latest: match latest {
                    Ok(version) => Ok(version@),
                    Err(message) => Err(message@),
                },
            },
            Event::InstalledVersion { installed } => EventView::InstalledVersion {
                installed: lookup_view(*installed),
            },
            Event::InstallFinished { outcome } => EventView::InstallFinished {
                outcome: match outcome {
                    Ok(_) => Ok(()),
                    Err(message) => Err(message@),
                },
            },
        }
    }
}

/// Whether `event` is a report on `action`.
pub open spec fn spec_answers(event: EventView, action: ActionView) -> bool {
    match action {
        ActionView::ProbeFile { .. } => event is FileProbed,
        ActionView::ReportStatus { .. } => event is StatusReported,
        ActionView::QueryLatestVersion { .. } => event is LatestVersion,
        ActionView::QueryInstalledVersion { .. } => event is InstalledVersion,
        ActionView::Install { .. } => event is InstallFinished,
        ActionView::Finish { .. } => false,
    }
}

impl ActionView {
    /// Whether performing the action talks to the registry.
    pub open spec fn is_registry_call(self) -> bool {
        self is QueryLatestVersion || self is QueryInstalledVersion || self is Install
    }
}

impl Action {
    /// Whether performing the action talks to the registry.
    pub fn is_registry_call(&self) -> (yes: bool)
        ensures
            yes == self@.is_registry_call(),
    {
        match self {
            Action::QueryLatestVersion { .. } => true,
            Action::QueryInstalledVersion { .. } => true,
            Action::Install { .. } => true,
            _ => false,
        }
    }
}

impl PartialEq for Action {
    fn eq(&self, other: &Self) -> (equal: bool) {
        match (self, other) {
            (Action::ProbeFile { path: mine }, Action::ProbeFile { path: theirs }) => *mine
                == *theirs,
            (Action::ReportStatus { status: mine }, Action::ReportStatus { status: theirs }) => {
                *mine == *theirs
            },
            (
                Action::QueryLatestVersion { package_name: mine },
                Action::QueryLatestVersion { package_name: theirs },
            ) => *mine == *theirs,
            (
                Action::QueryInstalledVersion { package_name: mine },
                Action::QueryInstalledVersion { package_name: theirs },
            ) => *mine == *theirs,
            (
                Action::Install { package_name: my_name, version: my_version },
                Action::Install { package_name: their_name, version: their_version },
            ) => *my_name == *their_name && *my_version == *their_version,
            (Action::Finish { result: Ok(mine) }, Action::Finish { result: Ok(theirs) }) => *mine
                == *theirs,
            (Action::Finish { result: Err(mine) }, Action::Finish { result: Err(theirs) }) => {
                *mine == *theirs
            },
            _ => false,
        }
    }
}

impl Eq for Action {

}

impl vstd::std_specs::cmp::PartialEqSpecImpl for Action {
    open spec fn obeys_eq_spec() -> bool {
        true
    }

    open spec fn eq_spec(&self, other: &Self) -> bool {
        self@ == other@
    }
}

} // verus!
