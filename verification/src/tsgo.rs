//! The provisioner: a cache of the last artifact handed out, and the decision
//! procedure that reconciles the local install with the registry.
//!
//! A request is a small state machine. [`TsGoExtension::begin`] opens it,
//! [`Request::pending`] names the action the host must perform next, and
//! [`TsGoExtension::advance`] takes the host's report and moves on, until the
//! pending action is [`Action::Finish`].

use crate::error::{ProvisionError, ProvisionErrorView};
use crate::package_utils::{resolve, spec_resolve, Architecture, Os, Package, PackageView};
use crate::protocol::{
    lookup_view, option_view, outcome_view, Action, ActionView, Event, EventView,
    InstallationStatus,
};
use vstd::prelude::*;
use vstd::string::StringExecFns;

verus! {

/// Session state of the provisioner: the artifact it last handed out.
///
/// The cache is a hint. Every request probes the cached path again before
/// trusting it.
#[derive(Debug)]
pub struct TsGoExtension {
    cached_path: Option<String>,
    cached_target: Option<Package>,
}

/// Mathematical value of a [`TsGoExtension`].
pub struct CacheView {
    pub cached_path: Option<Seq<char>>,
    pub cached_target: Option<PackageView>,
}

impl CacheView {
    /// The cached path is the expected path of the cached target, and neither
    /// is recorded without the other.
    pub open spec fn wf(self) -> bool {
        match self.cached_target {
            Some(target) => self.cached_path == Some(target.server_path),
            None => self.cached_path is None,
        }
    }
}

/// The cache before anything was provisioned.
pub open spec fn spec_empty_cache() -> CacheView {
    CacheView { cached_path: None, cached_target: None }
}

/// The cache after `target` was verified in place.
pub open spec fn spec_cache_of(target: PackageView) -> CacheView {
    CacheView { cached_path: Some(target.server_path), cached_target: Some(target) }
}

/// Where a request stands. Each phase waits for the report on one action.
#[derive(Debug)]
pub enum Phase {
    /// Probing the cached path.
    CheckingCache { path: String },
    /// Telling the user that an update check starts.
    AnnouncingCheck,
    /// Asking the registry for the latest version.
    QueryingLatest,
    /// The latest version is unknown (`error`); probing for an artifact that
    /// can be used as it is.
    ProbingStale { error: String },
    /// The target version is known; probing for the artifact.
    ProbingLocal { version: String },
    /// The artifact is there; asking which version is installed.
    QueryingInstalled { version: String },
    /// Telling the user that a download starts.
    AnnouncingDownload { version: String },
    /// Installing the target version.
    Installing { version: String },
    /// The install has returned, with `failure` if it failed; probing for the
    /// artifact.
    ProbingInstalled { failure: Option<String> },
    /// No install was needed; probing the artifact once more.
    Validating,
    /// Over.
    Finished { result: Result<String, ProvisionError> },
}

/// Mathematical value of a [`Phase`].
pub enum PhaseView {
    CheckingCache { path: Seq<char> },
    AnnouncingCheck,
    QueryingLatest,
    ProbingStale { error: Seq<char> },
    ProbingLocal { version: Seq<char> },
    QueryingInstalled { version: Seq<char> },
    AnnouncingDownload { version: Seq<char> },
    Installing { version: Seq<char> },
    ProbingInstalled { failure: Option<Seq<char>> },
    Validating,
    Finished { result: Result<Seq<char>, ProvisionErrorView> },
}

impl View for Phase {
    type V = PhaseView;

    open spec fn view(&self) -> PhaseView {
        match self {
            Phase::CheckingCache { path } => PhaseView::CheckingCache { path: path@ },
            Phase::AnnouncingCheck => PhaseView::AnnouncingCheck,
            Phase::QueryingLatest => PhaseView::QueryingLatest,
            Phase::ProbingStale { error } => PhaseView::ProbingStale { error: error@ },
            Phase::ProbingLocal { version } => PhaseView::ProbingLocal { version: version@ },
            Phase::QueryingInstalled { version } => PhaseView::QueryingInstalled {
                version: version@,
            },
            Phase::AnnouncingDownload { version } => PhaseView::AnnouncingDownload {
                version: version@,
            },
            Phase::Installing { version } => PhaseView::Installing { version: version@ },
            Phase::ProbingInstalled { failure } => PhaseView::ProbingInstalled {
                failure: option_view(*failure),
            },
            Phase::Validating => PhaseView::Validating,
            Phase::Finished { result } => PhaseView::Finished { result: outcome_view(*result) },
        }
    }
}

/// One call for a runnable path: the package wanted, the version it is
/// pinned to if any, and how far the call has come.
#[derive(Debug)]
pub struct Request {
    pub target: Package,
    pub pinned_version: Option<String>,
    pub phase: Phase,
}

/// Mathematical value of a [`Request`].
pub struct RequestView {
    pub target: PackageView,
    pub pinned_version: Option<Seq<char>>,
    pub phase: PhaseView,
}

impl View for Request {
    type V = RequestView;

    open spec fn view(&self) -> RequestView {
        RequestView {
            target: self.target@,
            pinned_version: option_view(self.pinned_version),
            phase: self.phase@,
        }
    }
}

/// An install is needed when the artifact is absent, or when the version on
/// record is not the target version. No record counts as another version.
pub open spec fn spec_should_install_or_update(
    binary_exists: bool,
    installed_version: Option<Seq<char>>,
    target_version: Seq<char>,
) -> bool {
    !binary_exists || installed_version != Some(target_version)
}

/// The version on record, where a failed lookup counts as no record.
pub open spec fn spec_installed_version(result: Result<Option<Seq<char>>, Seq<char>>) -> Option<
    Seq<char>,
> {
    match result {
        Ok(version) => version,
        Err(_) => None,
    }
}

/// The artifact of `target` was looked for and not found.
pub open spec fn spec_missing(target: PackageView) -> ProvisionErrorView {
    ProvisionErrorView::ArtifactMissingAfterInstall {
        package_name: target.package_name,
        path: target.server_path,
    }
}

/// A request as it is opened: a cached path is probed first; without one the
/// update check starts at once.
pub open spec fn spec_begin(
    cache: CacheView,
    target: PackageView,
    pinned_version: Option<Seq<char>>,
) -> RequestView {
    RequestView {
        target,
        pinned_version,
        phase: match cache.cached_path {
            Some(path) => PhaseView::CheckingCache { path },
            None => PhaseView::AnnouncingCheck,
        },
    }
}

impl RequestView {
    /// The same request in another phase.
    pub open spec fn at(self, phase: PhaseView) -> RequestView {
        RequestView { phase, ..self }
    }

    /// The action a request waits for.
    pub open spec fn pending(self) -> ActionView {
        match self.phase {
            PhaseView::CheckingCache { path } => ActionView::ProbeFile { path },
            PhaseView::AnnouncingCheck => ActionView::ReportStatus {
                status: InstallationStatus::CheckingForUpdate,
            },
            PhaseView::QueryingLatest => ActionView::QueryLatestVersion {
                package_name: self.target.package_name,
            },
            PhaseView::ProbingStale { .. } => ActionView::ProbeFile {
                path: self.target.server_path,
            },
            PhaseView::ProbingLocal { .. } => ActionView::ProbeFile {
                path: self.target.server_path,
            },
            PhaseView::QueryingInstalled { .. } => ActionView::QueryInstalledVersion {
                package_name: self.target.package_name,
            },
            PhaseView::AnnouncingDownload { .. } => ActionView::ReportStatus {
                status: InstallationStatus::Downloading,
            },
            PhaseView::Installing { version } => ActionView::Install {
                package_name: self.target.package_name,
                version,
            },
            PhaseView::ProbingInstalled { .. } => ActionView::ProbeFile {
                path: self.target.server_path,
            },
            PhaseView::Validating => ActionView::ProbeFile { path: self.target.server_path },
            PhaseView::Finished { result } => ActionView::Finish { result },
        }
    }

    /// Whether the request is over.
    pub open spec fn is_finished(self) -> bool {
        self.phase is Finished
    }

    /// An upper bound on the actions still to come before the request is
    /// over.
    pub open spec fn remaining(self) -> nat {
        match self.phase {
            PhaseView::CheckingCache { .. } => 8,
            PhaseView::AnnouncingCheck => 7,
            PhaseView::QueryingLatest => 6,
            PhaseView::ProbingStale { .. } => 1,
            PhaseView::ProbingLocal { .. } => 5,
            PhaseView::QueryingInstalled { .. } => 4,
            PhaseView::AnnouncingDownload { .. } => 3,
            PhaseView::Installing { .. } => 2,
            PhaseView::ProbingInstalled { .. } => 1,
            PhaseView::Validating => 1,
            PhaseView::Finished { .. } => 0,
        }
    }
}

/// The end of a request at its last probe: with the artifact in place it is
/// cached and handed out, without it the request fails with `failure`.
pub open spec fn spec_settle(
    cache: CacheView,
    target: PackageView,
    is_file: bool,
    failure: ProvisionErrorView,
) -> (CacheView, PhaseView) {
    if is_file {
        (spec_cache_of(target), PhaseView::Finished { result: Ok(target.server_path) })
    } else {
        (cache, PhaseView::Finished { result: Err(failure) })
    }
}

/// One step of the decision procedure: the cache and the request after
/// `event` was reported. An event that does not answer the pending action
/// changes nothing.
pub open spec fn spec_advance(cache: CacheView, request: RequestView, event: EventView) -> (
    CacheView,
    RequestView,
) {
    match (request.phase, event) {
        (PhaseView::CheckingCache { path }, EventView::FileProbed { is_file }) => {
            if is_file {
                (cache, request.at(PhaseView::Finished { result: Ok(path) }))
            } else {
                (cache, request.at(PhaseView::AnnouncingCheck))
            }
        },
        (PhaseView::AnnouncingCheck, EventView::StatusReported) => {
            match request.pinned_version {
                Some(version) => (cache, request.at(PhaseView::ProbingLocal { version })),
                None => (cache, request.at(PhaseView::QueryingLatest)),
            }
        },
        (PhaseView::QueryingLatest, EventView::LatestVersion { latest }) => {
            match latest {
                Ok(version) => (cache, request.at(PhaseView::ProbingLocal { version })),
                Err(error) => (cache, request.at(PhaseView::ProbingStale { error })),
            }
        },
        (PhaseView::ProbingStale { error }, EventView::FileProbed { is_file }) => {
            let end = spec_settle(
                cache,
                request.target,
                is_file,
                ProvisionErrorView::RegistryQueryFailed { message: error },
            );
            (end.0, request.at(end.1))
        },
        (PhaseView::ProbingLocal { version }, EventView::FileProbed { is_file }) => {
            if is_file {
                (cache, request.at(PhaseView::QueryingInstalled { version }))
            } else {
                (cache, request.at(PhaseView::AnnouncingDownload { version }))
            }
        },
        (PhaseView::QueryingInstalled { version }, EventView::InstalledVersion { installed }) => {
            if spec_should_install_or_update(true, spec_installed_version(installed), version) {
                (cache, request.at(PhaseView::AnnouncingDownload { version }))
            } else {
                (cache, request.at(PhaseView::Validating))
            }
        },
        (PhaseView::AnnouncingDownload { version }, EventView::StatusReported) => {
            (cache, request.at(PhaseView::Installing { version }))
        },
        (PhaseView::Installing { .. }, EventView::InstallFinished { outcome }) => {
            (
                cache,
                request.at(
                    PhaseView::ProbingInstalled {
                        failure: match outcome {
                            Ok(_) => None,
                            Err(message) => Some(message),
                        },
                    },
                ),
            )
        },
        (PhaseView::ProbingInstalled { failure }, EventView::FileProbed { is_file }) => {
            let end = spec_settle(
                cache,
                request.target,
                is_file,
                match failure {
                    Some(message) => ProvisionErrorView::InstallFailed { message },
                    None => spec_missing(request.target),
                },
            );
            (end.0, request.at(end.1))
        },
        (PhaseView::Validating, EventView::FileProbed { is_file }) => {
            let end = spec_settle(cache, request.target, is_file, spec_missing(request.target));
            (end.0, request.at(end.1))
        },
        _ => (cache, request),
    }
}

impl View for TsGoExtension {
    type V = CacheView;

    closed spec fn view(&self) -> CacheView {
        CacheView {
            cached_path: option_view(self.cached_path),
            cached_target: match self.cached_target {
                Some(target) => Some(target@),
                None => None,
            },
        }
    }
}

impl Request {
    /// The action the host must perform next. Once it is [`Action::Finish`]
    /// the request is over and the action carries its answer.
    pub fn pending(&self) -> (action: Action)
        ensures
            action@ == self@.pending(),
    {
        match &self.phase {
            Phase::CheckingCache { path } => Action::ProbeFile { path: path.clone() },
            Phase::AnnouncingCheck => Action::ReportStatus {
                status: InstallationStatus::CheckingForUpdate,
            },
            Phase::QueryingLatest => Action::QueryLatestVersion {
                package_name: self.target.package_name.clone(),
            },
            Phase::ProbingStale { .. } => Action::ProbeFile {
                path: self.target.server_path.clone(),
            },
            Phase::ProbingLocal { .. } => Action::ProbeFile {
                path: self.target.server_path.clone(),
            },
            Phase::QueryingInstalled { .. } => Action::QueryInstalledVersion {
                package_name: self.target.package_name.clone(),
            },
            Phase::AnnouncingDownload { .. } => Action::ReportStatus {
                status: InstallationStatus::Downloading,
            },
            Phase::Installing { version } => Action::Install {
                package_name: self.target.package_name.clone(),
                version: version.clone(),
            },
            Phase::ProbingInstalled { .. } => Action::ProbeFile {
                path: self.target.server_path.clone(),
            },
            Phase::Validating => Action::ProbeFile { path: self.target.server_path.clone() },
            Phase::Finished { result } => Action::Finish {
                result: match result {
                    Ok(path) => Ok(path.clone()),
                    Err(error) => Err(error.clone()),
                },
            },
        }
    }

    /// Whether the request is over.
    pub fn is_finished(&self) -> (done: bool)
        ensures
            done == self@.is_finished(),
    {
        match &self.phase {
            Phase::Finished { .. } => true,
            _ => false,
        }
    }
}

impl TsGoExtension {
    #[verifier::type_invariant]
    spec fn consistent(self) -> bool {
        self@.wf()
    }

    /// A provisioner that has handed out nothing yet.
    pub fn new() -> (fresh: Self)
        ensures
            fresh@ == spec_empty_cache(),
    {
        TsGoExtension { cached_path: None, cached_target: None }
    }

    /// The registry name of the native package for a platform, or the
    /// failure for an architecture that has none.
    pub fn get_platform_package_name(os: Os, arch: Architecture) -> (name: Result<
        String,
        ProvisionError,
    >)
        ensures
            outcome_view(name) == match spec_resolve(os, arch) {
                Ok(target) => Ok::<Seq<char>, ProvisionErrorView>(target.package_name),
                Err(error) => Err(error),
            },
    {
        match resolve(os, arch) {
            Ok(target) => Ok(target.package_name),
            Err(error) => Err(error),
        }
    }

    /// Where the native binary for a platform lies once its package is
    /// installed, or the failure for an architecture that has no package.
    /// Whether the file is there is for a probe to tell.
    pub fn get_native_binary_path(os: Os, arch: Architecture) -> (path: Result<
        String,
        ProvisionError,
    >)
        ensures
            outcome_view(path) == match spec_resolve(os, arch) {
                Ok(target) => Ok::<Seq<char>, ProvisionErrorView>(target.server_path),
                Err(error) => Err(error),
            },
    {
        match resolve(os, arch) {
            Ok(target) => Ok(target.server_path),
            Err(error) => Err(error),
        }
    }

    /// The path handed out last, if any.
    pub fn cached_path(&self) -> (path: Option<String>)
        ensures
            option_view(path) == self@.cached_path,
    {
        match &self.cached_path {
            Some(path) => Some(path.clone()),
            None => None,
        }
    }

    /// The package that the cached path belongs to, if any. Its kind tells
    /// how the cached artifact is started.
    pub fn cached_target(&self) -> (target: Option<Package>)
        ensures
            target is Some <==> self@.cached_target is Some,
            target matches Some(package) ==> Some(package@) == self@.cached_target,
            self@.wf(),
    {
        proof {
            use_type_invariant(self);
        }
        match &self.cached_target {
            Some(target) => Some(target.clone()),
            None => None,
        }
    }

    /// Whether `event` reports a regular file at the probed path.
    pub fn binary_exists(&self, event: &Event) -> (exists: bool)
        ensures
            exists == (event@ == EventView::FileProbed { is_file: true }),
    {
        match event {
            Event::FileProbed { is_file } => *is_file,
            _ => false,
        }
    }

    /// The version on record according to `lookup`. A lookup that failed
    /// counts as no record.
    pub fn get_installed_version(&self, lookup: Result<Option<String>, String>) -> (version: Option<
        String,
    >)
        ensures
            option_view(version) == spec_installed_version(lookup_view(lookup)),
    {
        match lookup {
            Ok(version) => version,
            Err(_) => None,
        }
    }

    /// Whether `target_version` has to be installed, given whether the
    /// artifact is in place and which version the registry has on record.
    pub fn should_install_or_update(
        &self,
        binary_exists: bool,
        installed_version: &Option<String>,
        target_version: &str,
    ) -> (needed: bool)
        ensures
            needed == spec_should_install_or_update(
                binary_exists,
                option_view(*installed_version),
                target_version@,
            ),
    {
        if !binary_exists {
            return true;
        }
        match installed_version {
            Some(installed) => {
                let wanted = String::from_str(target_version);
                !(*installed == wanted)
            },
            None => true,
        }
    }

    /// Opens a request for the artifact of `target`, at `pinned_version` if
    /// one is given and at the registry's latest version otherwise.
    pub fn begin(&self, target: Package, pinned_version: Option<String>) -> (request: Request)
        ensures
            request@ == spec_begin(self@, target@, option_view(pinned_version)),
    {
        let phase = match &self.cached_path {
            Some(path) => Phase::CheckingCache { path: path.clone() },
            None => Phase::AnnouncingCheck,
        };
        Request { target, pinned_version, phase }
    }

    /// The failure of a request whose artifact is not where it must be.
    fn missing(target: &Package) -> (failure: ProvisionError)
        ensures
            failure@ == spec_missing(target@),
    {
        ProvisionError::ArtifactMissingAfterInstall {
            package_name: target.package_name.clone(),
            path: target.server_path.clone(),
        }
    }

    /// Ends a request at its last probe.
    fn settle(&mut self, target: &Package, is_file: bool, failure: ProvisionError) -> (end: Phase)
        ensures
            (final(self)@, end@) == spec_settle(old(self)@, target@, is_file, failure@),
    {
        if is_file {
            *self = TsGoExtension {
                cached_path: Some(target.server_path.clone()),
                cached_target: Some(target.clone()),
            };
            Phase::Finished { result: Ok(target.server_path.clone()) }
        } else {
            Phase::Finished { result: Err(failure) }
        }
    }

    /// Takes the host's report on the pending action of `request` and returns
    /// the request as it stands afterwards. The cache changes only when an
    /// artifact was verified in place. A report that does not answer the
    /// pending action is ignored.
    pub fn advance(&mut self, request: Request, event: Event) -> (next: Request)
        ensures
            (final(self)@, next@) == spec_advance(old(self)@, request@, event@),
    {
        let exists = self.binary_exists(&event);
        let Request { target, pinned_version, phase } = request;
        match (phase, event) {
            (Phase::CheckingCache { path }, Event::FileProbed { .. }) => {
                if exists {
                    Request { target, pinned_version, phase: Phase::Finished { result: Ok(path) } }
                } else {
                    Request { target, pinned_version, phase: Phase::AnnouncingCheck }
                }
            },
            (Phase::AnnouncingCheck, Event::StatusReported) => {
                let phase = match &pinned_version {
                    Some(version) => Phase::ProbingLocal { version: version.clone() },
                    None => Phase::QueryingLatest,
                };
                Request { target, pinned_version, phase }
            },
            (Phase::QueryingLatest, Event::LatestVersion { latest }) => {
                let phase = match latest {
                    Ok(version) => Phase::ProbingLocal { version },
                    Err(error) => Phase::ProbingStale { error },
                };
                Request { target, pinned_version, phase }
            },
            (Phase::ProbingStale { error }, Event::FileProbed { .. }) => {
                let failure = ProvisionError::RegistryQueryFailed { message: error };
                let phase = self.settle(&target, exists, failure);
                Request { target, pinned_version, phase }
            },
            (Phase::ProbingLocal { version }, Event::FileProbed { .. }) => {
                if exists {
                    Request { target, pinned_version, phase: Phase::QueryingInstalled { version } }
                } else {
                    Request { target, pinned_version, phase: Phase::AnnouncingDownload { version } }
                }
            },
            (Phase::QueryingInstalled { version }, Event::InstalledVersion { installed }) => {
                let installed = self.get_installed_version(installed);
                if self.should_install_or_update(true, &installed, version.as_str()) {
                    Request { target, pinned_version, phase: Phase::AnnouncingDownload { version } }
                } else {
                    Request { target, pinned_version, phase: Phase::Validating }
                }
            },
            (Phase::AnnouncingDownload { version }, Event::StatusReported) => {
                Request { target, pinned_version, phase: Phase::Installing { version } }
            },
            (Phase::Installing { .. }, Event::InstallFinished { outcome }) => {
                let failure = match outcome {
                    Ok(_) => None,
                    Err(message) => Some(message),
                };
                Request { target, pinned_version, phase: Phase::ProbingInstalled { failure } }
            },
            (Phase::ProbingInstalled { failure }, Event::FileProbed { .. }) => {
                let failure = match failure {
                    Some(message) => ProvisionError::InstallFailed { message },
                    None => Self::missing(&target),
                };
                let phase = self.settle(&target, exists, failure);
                Request { target, pinned_version, phase }
            },
            (Phase::Validating, Event::FileProbed { .. }) => {
                let phase = self.settle(&target, exists, Self::missing(&target));
                Request { target, pinned_version, phase }
            },
            (phase, _) => Request { target, pinned_version, phase },
        }
    }
}

} // verus!
