//! A mathematical model of the host, and of a whole request run against it.
//!
//! Nothing here is executable. The model answers every action the way a file
//! system and a registry would, which makes it possible to say what a request
//! ends in and which actions it takes on the way, from the first action to
//! the last.

use crate::error::ProvisionErrorView;
use crate::fallback::{spec_advance_attempts, AttemptsView};
use crate::package_utils::PackageView;
use crate::protocol::{ActionView, EventView, InstallationStatus};
use crate::tsgo::{
    spec_advance, spec_begin, spec_cache_of, spec_installed_version, spec_missing,
    spec_should_install_or_update, CacheView, PhaseView, RequestView,
};
use vstd::prelude::*;

verus! {

/// What an install leaves behind: its verdict, the regular files on disk and
/// the versions on record afterwards. An install may fail and still leave
/// files, or succeed and leave none.
pub struct InstallEffect {
    pub outcome: Result<(), Seq<char>>,
    pub files: Set<Seq<char>>,
    pub installed: spec_fn(Seq<char>) -> Result<Option<Seq<char>>, Seq<char>>,
}

/// The world outside the provisioner.
pub struct Host {
    /// The paths that are regular files.
    pub files: Set<Seq<char>>,
    /// The registry's answer when asked for the latest version of a package.
    pub latest: spec_fn(Seq<char>) -> Result<Seq<char>, Seq<char>>,
    /// The answer when asked which version of a package is installed.
    pub installed: spec_fn(Seq<char>) -> Result<Option<Seq<char>>, Seq<char>>,
    /// What installing a version of a package does.
    pub install: spec_fn(Seq<char>, Seq<char>) -> InstallEffect,
}

impl Host {
    /// The report on `action`, and the host after performing it. Only an
    /// install changes the host.
    pub open spec fn respond(self, action: ActionView) -> (EventView, Host) {
        match action {
            ActionView::ProbeFile { path } => (
                EventView::FileProbed { is_file: self.files.contains(path) },
                self,
            ),
            ActionView::ReportStatus { .. } => (EventView::StatusReported, self),
            ActionView::QueryLatestVersion { package_name } => (
                EventView::LatestVersion { latest: (self.latest)(package_name) },
                self,
            ),
            ActionView::QueryInstalledVersion { package_name } => (
                EventView::InstalledVersion { installed: (self.installed)(package_name) },
                self,
            ),
            ActionView::Install { package_name, version } => {
                let effect = (self.install)(package_name, version);
                (
                    EventView::InstallFinished { outcome: effect.outcome },
                    Host { files: effect.files, installed: effect.installed, ..self },
                )
            },
            ActionView::Finish { .. } => (EventView::StatusReported, self),
        }
    }
}

/// A request run to its end.
pub struct Run {
    /// The answer.
    pub result: Result<Seq<char>, ProvisionErrorView>,
    /// The actions the host performed, in order.
    pub trace: Seq<ActionView>,
    /// The cache afterwards.
    pub cache: CacheView,
    /// The host afterwards.
    pub host: Host,
}

impl Run {
    /// The same run with `actions` performed before it.
    pub open spec fn after(self, actions: Seq<ActionView>) -> Run {
        Run { trace: actions + self.trace, ..self }
    }
}

/// Runs `request` against `host` until it is over: the host performs the
/// pending action, the provisioner advances on the report, and so on.
pub open spec fn spec_run(cache: CacheView, host: Host, request: RequestView) -> Run
    decreases request.remaining(),
{
    match request.phase {
        PhaseView::Finished { result } => Run { result, trace: Seq::empty(), cache, host },
        _ => {
            let action = request.pending();
            let answer = host.respond(action);
            let step = spec_advance(cache, request, answer.0);
            spec_run(step.0, answer.1, step.1).after(seq![action])
        },
    }
}

/// A whole call for a runnable path of `target`.
pub open spec fn spec_get_runnable_path(
    cache: CacheView,
    host: Host,
    target: PackageView,
    pinned_version: Option<Seq<char>>,
) -> Run {
    spec_run(cache, host, spec_begin(cache, target, pinned_version))
}

/// Whether the cache names a path that is a regular file.
pub open spec fn spec_cache_hit(cache: CacheView, host: Host) -> bool {
    cache.cached_path matches Some(path) && host.files.contains(path)
}

/// The version to reconcile against: the pin, or else what the registry
/// calls latest.
pub open spec fn spec_target_version(
    host: Host,
    target: PackageView,
    pinned_version: Option<Seq<char>>,
) -> Result<Seq<char>, Seq<char>> {
    match pinned_version {
        Some(version) => Ok(version),
        None => (host.latest)(target.package_name),
    }
}

/// Whether `version` of `target` has to be installed on `host`.
pub open spec fn spec_needs_install(host: Host, target: PackageView, version: Seq<char>) -> bool {
    spec_should_install_or_update(
        host.files.contains(target.server_path),
        spec_installed_version((host.installed)(target.package_name)),
        version,
    )
}

/// Whether a call installs: the cache misses, the target version is known,
/// and the artifact is absent or on record under another version.
pub open spec fn spec_installs(
    cache: CacheView,
    host: Host,
    target: PackageView,
    pinned_version: Option<Seq<char>>,
) -> bool {
    &&& !spec_cache_hit(cache, host)
    &&& spec_target_version(host, target, pinned_version) matches Ok(version)
    &&& spec_needs_install(host, target, version)
}

/// The last part of a call: the artifact is probed. Found, it is cached and
/// handed out; not found, the call fails with `failure` and the cache stays.
pub open spec fn spec_conclude(
    cache: CacheView,
    host: Host,
    target: PackageView,
    failure: ProvisionErrorView,
) -> Run {
    let found = host.files.contains(target.server_path);
    Run {
        result: if found {
            Ok(target.server_path)
        } else {
            Err(failure)
        },
        trace: seq![ActionView::ProbeFile { path: target.server_path }],
        cache: if found {
            spec_cache_of(target)
        } else {
            cache
        },
        host,
    }
}

/// The part of a call that installs `version`: the download is announced,
/// the install runs, and the call concludes on the host as the install left
/// it. An install that failed is forgiven if the artifact is there.
pub open spec fn spec_install(
    cache: CacheView,
    host: Host,
    target: PackageView,
    version: Seq<char>,
) -> Run {
    let install = ActionView::Install { package_name: target.package_name, version };
    let failure = match (host.install)(target.package_name, version).outcome {
        Ok(_) => spec_missing(target),
        Err(message) => ProvisionErrorView::InstallFailed { message },
    };
    spec_conclude(cache, host.respond(install).1, target, failure).after(
        seq![ActionView::ReportStatus { status: InstallationStatus::Downloading }, install],
    )
}

/// The part of a call that knows its target version: the artifact is probed
/// and, if it is there, the version on record is asked for; then the call
/// installs or, where nothing needs installing, concludes.
pub open spec fn spec_reconcile_at(
    cache: CacheView,
    host: Host,
    target: PackageView,
    version: Seq<char>,
) -> Run {
    let probe = ActionView::ProbeFile { path: target.server_path };
    let looked = if host.files.contains(target.server_path) {
        seq![probe, ActionView::QueryInstalledVersion { package_name: target.package_name }]
    } else {
        seq![probe]
    };
    if spec_needs_install(host, target, version) {
        spec_install(cache, host, target, version).after(looked)
    } else {
        spec_conclude(cache, host, target, spec_missing(target)).after(looked)
    }
}

/// The part of a call after a cache miss: the check is announced and the
/// target version settled. Where the registry cannot tell it, the call
/// concludes with whatever artifact is there.
pub open spec fn spec_reconcile(
    cache: CacheView,
    host: Host,
    target: PackageView,
    pinned_version: Option<Seq<char>>,
) -> Run {
    let check = ActionView::ReportStatus { status: InstallationStatus::CheckingForUpdate };
    let ask = ActionView::QueryLatestVersion { package_name: target.package_name };
    match pinned_version {
        Some(version) => spec_reconcile_at(cache, host, target, version).after(seq![check]),
        None => match (host.latest)(target.package_name) {
            Ok(version) => spec_reconcile_at(cache, host, target, version).after(seq![check, ask]),
            Err(message) => spec_conclude(
                cache,
                host,
                target,
                ProvisionErrorView::RegistryQueryFailed { message },
            ).after(seq![check, ask]),
        },
    }
}

/// A whole call, said in one piece: a cached path is probed and, if it is
/// a regular file, handed out at once; otherwise the call reconciles.
pub open spec fn spec_call(
    cache: CacheView,
    host: Host,
    target: PackageView,
    pinned_version: Option<Seq<char>>,
) -> Run {
    match cache.cached_path {
        Some(path) => {
            let probe = ActionView::ProbeFile { path };
            if host.files.contains(path) {
                Run { result: Ok(path), trace: seq![probe], cache, host }
            } else {
                spec_reconcile(cache, host, target, pinned_version).after(seq![probe])
            }
        },
        None => spec_reconcile(cache, host, target, pinned_version),
    }
}

/// Runs a call with fallbacks against `host` until it is over.
pub open spec fn spec_run_attempts(cache: CacheView, host: Host, attempts: AttemptsView) -> Run
    decreases attempts.fallbacks.len(), attempts.request.remaining(),
{
    match attempts.request.phase {
        PhaseView::Finished { result } => Run { result, trace: Seq::empty(), cache, host },
        _ => {
            let action = attempts.pending();
            let answer = host.respond(action);
            let step = spec_advance_attempts(cache, attempts, answer.0);
            spec_run_attempts(step.0, answer.1, step.1).after(seq![action])
        },
    }
}

/// Whole calls made one after the other: for `preferred` first, and while
/// the last one failed, for the next of `fallbacks`, each on the cache and
/// the host that the one before left behind. The answer is that of the last
/// call made, the trace that of all of them.
pub open spec fn spec_try_in_order(
    cache: CacheView,
    host: Host,
    preferred: PackageView,
    fallbacks: Seq<PackageView>,
    pinned_version: Option<Seq<char>>,
) -> Run
    decreases fallbacks.len(),
{
    let first = spec_get_runnable_path(cache, host, preferred, pinned_version);
    if first.result is Ok || fallbacks.len() == 0 {
        first
    } else {
        let rest = spec_try_in_order(
            first.cache,
            first.host,
            fallbacks[0],
            fallbacks.drop_first(),
            pinned_version,
        );
        rest.after(first.trace)
    }
}

} // verus!
