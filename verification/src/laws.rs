//! What holds of every platform resolution, and of every call for a runnable
//! path when run against the model of the host.

use crate::error::{spec_message, ProvisionErrorView};
use crate::fallback::{spec_advance_attempts, spec_begin_attempts, AttemptsView};
use crate::host::{
    spec_cache_hit, spec_call, spec_conclude, spec_get_runnable_path, spec_install,
    spec_installs, spec_needs_install, spec_reconcile, spec_reconcile_at, spec_run,
    spec_run_attempts, spec_target_version, spec_try_in_order, Host, Run,
};
use crate::package_utils::{
    spec_arch_token, spec_native_package, spec_platform_token, spec_resolve, spec_server_path,
    spec_supported_arch, Architecture, Os, PackageView,
};
use crate::protocol::{spec_answers, ActionView, EventView, InstallationStatus};
use crate::tsgo::{
    spec_advance, spec_begin, spec_cache_of, spec_missing, CacheView, PhaseView, RequestView,
};
use vstd::prelude::*;

verus! {

/// Whether `text` ends in `suffix`.
pub open spec fn spec_ends_with(text: Seq<char>, suffix: Seq<char>) -> bool {
    text.len() >= suffix.len() && text.subrange(text.len() - suffix.len(), text.len() as int)
        == suffix
}

/// The expected path of a platform package ends in `.exe` exactly on the
/// Windows platform token, whatever the architecture token.
pub proof fn law_server_path_suffix(platform: Seq<char>, arch: Seq<char>)
    ensures
        spec_ends_with(spec_server_path(platform, arch), ".exe"@) <==> platform == "win32"@,
{
    reveal_strlit(".exe");
    reveal_strlit("/lib/tsgo");
    let path = spec_server_path(platform, arch);
    if platform == "win32"@ {
        assert(path.subrange(path.len() - 4, path.len() as int) =~= ".exe"@);
    } else {
        assert(path.len() >= 9);
        assert(path[path.len() - 4] == 't');
        assert(path.subrange(path.len() - 4, path.len() as int)[0] == 't');
    }
}

/// Every supported platform resolves to one package, the same each time,
/// whose expected path ends in `.exe` on Windows and nowhere else. An
/// architecture without a registry token resolves to no package at all.
pub proof fn law_resolve_suffix(os: Os, arch: Architecture)
    ensures
        spec_arch_token(arch) is Some ==> (spec_resolve(os, arch) matches Ok(target)
            && (spec_ends_with(target.server_path, ".exe"@) <==> os == Os::Windows)),
        spec_arch_token(arch) is None ==> spec_resolve(os, arch) == Err::<
            PackageView,
            ProvisionErrorView,
        >(ProvisionErrorView::UnsupportedArchitecture),
{
    reveal_strlit("win32");
    reveal_strlit("darwin");
    reveal_strlit("linux");
    match spec_arch_token(arch) {
        Some(token) => {
            law_server_path_suffix(spec_platform_token(os), token);
            match os {
                Os::Mac => {
                    assert("darwin"@.len() != "win32"@.len());
                },
                Os::Linux => {
                    assert("linux"@[0] != "win32"@[0]);
                },
                Os::Windows => {},
            }
        },
        None => {},
    }
}

/// The two ways to name a platform agree: an architecture has a package
/// exactly when its registry token is a supported one, and the package it
/// resolves to is the native package of its tokens.
pub proof fn law_tokens_name_the_resolved_package(os: Os, arch: Architecture)
    ensures
        spec_arch_token(arch) matches Some(token) ==> spec_supported_arch(token) && spec_resolve(
            os,
            arch,
        ) == Ok::<PackageView, ProvisionErrorView>(
            spec_native_package(spec_platform_token(os), token),
        ),
        spec_arch_token(arch) is None <==> arch == Architecture::X86,
{
}

/// A report that does not answer the pending action changes neither the
/// request nor the cache. A finished request is changed by no report at all.
pub proof fn law_stray_reports_change_nothing(
    cache: CacheView,
    request: RequestView,
    event: EventView,
)
    requires
        !spec_answers(event, request.pending()),
    ensures
        spec_advance(cache, request, event) == (cache, request),
{
}

/// A report that answers the pending action brings the request closer to
/// its end, whatever it reports: no host can keep a request going for more
/// than eight actions. The step keeps the target and the pin. It changes the
/// cache only by recording the target, and only as it hands out the target's
/// path; a well-formed cache stays well-formed.
pub proof fn law_answers_make_progress(cache: CacheView, request: RequestView, event: EventView)
    requires
        spec_answers(event, request.pending()),
    ensures
        ({
            let step = spec_advance(cache, request, event);
            &&& step.1.remaining() < request.remaining() <= 8
            &&& step.1.target == request.target
            &&& step.1.pinned_version == request.pinned_version
            &&& step.0 == cache || (step.0 == spec_cache_of(request.target) && step.1.phase
                == PhaseView::Finished {
                result: Ok::<Seq<char>, ProvisionErrorView>(request.target.server_path),
            })
            &&& cache.wf() ==> step.0.wf()
        }),
{
}

/// Whether no action of `trace` talks to the registry.
pub open spec fn spec_no_registry_call(trace: Seq<ActionView>) -> bool {
    forall|i: int| 0 <= i < trace.len() ==> !(#[trigger] trace[i]).is_registry_call()
}

/// Whether some action of `trace` is an install.
pub open spec fn spec_has_install(trace: Seq<ActionView>) -> bool {
    exists|i: int| 0 <= i < trace.len() && (#[trigger] trace[i]) is Install
}

/// The failure a request ends in when its last probe finds nothing.
spec fn last_failure(request: RequestView) -> ProvisionErrorView {
    match request.phase {
        PhaseView::ProbingStale { error } => ProvisionErrorView::RegistryQueryFailed {
            message: error,
        },
        PhaseView::ProbingInstalled { failure: Some(message) } => {
            ProvisionErrorView::InstallFailed { message }
        },
        _ => spec_missing(request.target),
    }
}

/// A request at its last probe.
proof fn lemma_run_last_probe(cache: CacheView, host: Host, request: RequestView)
    requires
        request.phase is ProbingStale || request.phase is ProbingInstalled
            || request.phase is Validating,
    ensures
        spec_run(cache, host, request) == spec_conclude(
            cache,
            host,
            request.target,
            last_failure(request),
        ),
{
    reveal_with_fuel(spec_run, 2);
    assert(spec_run(cache, host, request).trace =~= seq![
        ActionView::ProbeFile { path: request.target.server_path },
    ]);
}

/// A request about to install.
proof fn lemma_run_download(cache: CacheView, host: Host, request: RequestView)
    requires
        request.phase is AnnouncingDownload,
    ensures
        spec_run(cache, host, request) == spec_install(
            cache,
            host,
            request.target,
            request.phase->AnnouncingDownload_version,
        ),
{
    let target = request.target;
    let version = request.phase->AnnouncingDownload_version;
    let report = ActionView::ReportStatus { status: InstallationStatus::Downloading };
    let install = ActionView::Install { package_name: target.package_name, version };
    let effect = (host.install)(target.package_name, version);
    let probing = request.at(
        PhaseView::ProbingInstalled {
            failure: match effect.outcome {
                Ok(_) => None,
                Err(message) => Some(message),
            },
        },
    );
    let last = spec_run(cache, host.respond(install).1, probing);
    lemma_run_last_probe(cache, host.respond(install).1, probing);
    reveal_with_fuel(spec_run, 2);
    assert(spec_run(cache, host, request.at(PhaseView::Installing { version })) == last.after(
        seq![install],
    ));
    assert(spec_run(cache, host, request) == last.after(seq![install]).after(seq![report]));
    assert(seq![report] + (seq![install] + last.trace) =~= seq![report, install] + last.trace);
}

/// A request that knows its target version.
proof fn lemma_run_local(cache: CacheView, host: Host, request: RequestView)
    requires
        request.phase is ProbingLocal,
    ensures
        spec_run(cache, host, request) == spec_reconcile_at(
            cache,
            host,
            request.target,
            request.phase->ProbingLocal_version,
        ),
{
    let target = request.target;
    let version = request.phase->ProbingLocal_version;
    let probe = ActionView::ProbeFile { path: target.server_path };
    let query = ActionView::QueryInstalledVersion { package_name: target.package_name };
    let download = request.at(PhaseView::AnnouncingDownload { version });
    let validating = request.at(PhaseView::Validating);
    lemma_run_download(cache, host, download);
    lemma_run_last_probe(cache, host, validating);
    let rest = if spec_needs_install(host, target, version) {
        spec_run(cache, host, download)
    } else {
        spec_run(cache, host, validating)
    };
    reveal_with_fuel(spec_run, 2);
    if host.files.contains(target.server_path) {
        let asking = request.at(PhaseView::QueryingInstalled { version });
        assert(spec_run(cache, host, asking) == rest.after(seq![query]));
        assert(spec_run(cache, host, request) == rest.after(seq![query]).after(seq![probe]));
        assert(seq![probe] + (seq![query] + rest.trace) =~= seq![probe, query] + rest.trace);
    } else {
        assert(spec_run(cache, host, request) == rest.after(seq![probe]));
    }
}

/// A request after a cache miss.
proof fn lemma_run_reconcile(cache: CacheView, host: Host, request: RequestView)
    requires
        request.phase is AnnouncingCheck,
    ensures
        spec_run(cache, host, request) == spec_reconcile(
            cache,
            host,
            request.target,
            request.pinned_version,
        ),
{
    let target = request.target;
    let check = ActionView::ReportStatus { status: InstallationStatus::CheckingForUpdate };
    let ask = ActionView::QueryLatestVersion { package_name: target.package_name };
    reveal_with_fuel(spec_run, 2);
    match request.pinned_version {
        Some(version) => {
            let local = request.at(PhaseView::ProbingLocal { version });
            lemma_run_local(cache, host, local);
            assert(spec_run(cache, host, request) == spec_run(cache, host, local).after(
                seq![check],
            ));
        },
        None => {
            let asking = request.at(PhaseView::QueryingLatest);
            let next = match (host.latest)(target.package_name) {
                Ok(version) => request.at(PhaseView::ProbingLocal { version }),
                Err(error) => request.at(PhaseView::ProbingStale { error }),
            };
            if next.phase is ProbingLocal {
                lemma_run_local(cache, host, next);
            } else {
                lemma_run_last_probe(cache, host, next);
            }
            let rest = spec_run(cache, host, next);
            assert(spec_run(cache, host, asking) == rest.after(seq![ask]));
            assert(spec_run(cache, host, request) == rest.after(seq![ask]).after(seq![check]));
            assert(seq![check] + (seq![ask] + rest.trace) =~= seq![check, ask] + rest.trace);
        },
    }
}

/// Every call, whatever the cache, the host, the target and the pin, runs as
/// [`spec_call`] says: it answers the same, takes the same actions in the
/// same order, and leaves the same cache and the same host behind.
pub proof fn law_call_in_one_piece(
    cache: CacheView,
    host: Host,
    target: PackageView,
    pinned_version: Option<Seq<char>>,
)
    ensures
        spec_get_runnable_path(cache, host, target, pinned_version) == spec_call(
            cache,
            host,
            target,
            pinned_version,
        ),
{
    let request = spec_begin(cache, target, pinned_version);
    let announcing = request.at(PhaseView::AnnouncingCheck);
    lemma_run_reconcile(cache, host, announcing);
    reveal_with_fuel(spec_run, 2);
    match cache.cached_path {
        Some(path) => {
            let probe = ActionView::ProbeFile { path };
            if host.files.contains(path) {
                assert(spec_run(cache, host, request).trace =~= seq![probe]);
            } else {
                assert(spec_run(cache, host, request) == spec_run(cache, host, announcing).after(
                    seq![probe],
                ));
            }
        },
        None => {},
    }
}

/// Whether `action` occurs in `trace`.
pub open spec fn spec_performs(trace: Seq<ActionView>, action: ActionView) -> bool {
    exists|i: int| 0 <= i < trace.len() && #[trigger] trace[i] == action
}

/// A cached path that is still a regular file is handed out at once: the
/// only action is the probe of that path, whatever target and pin the call
/// names, and neither the cache nor the host changes.
pub proof fn law_cache_hit_probes_only(
    cache: CacheView,
    host: Host,
    target: PackageView,
    pinned_version: Option<Seq<char>>,
)
    requires
        spec_cache_hit(cache, host),
    ensures
        ({
            let run = spec_get_runnable_path(cache, host, target, pinned_version);
            &&& run.result == Ok::<Seq<char>, ProvisionErrorView>(cache.cached_path->0)
            &&& run.trace == seq![ActionView::ProbeFile { path: cache.cached_path->0 }]
            &&& spec_no_registry_call(run.trace)
            &&& run.cache == cache
            &&& run.host == host
        }),
{
    law_call_in_one_piece(cache, host, target, pinned_version);
}

/// Whatever a call hands out is a regular file when the call ends, and is
/// what the cache names from then on. A call that fails leaves the cache as
/// it was. A well-formed cache stays well-formed.
pub proof fn law_cache_names_verified_file(
    cache: CacheView,
    host: Host,
    target: PackageView,
    pinned_version: Option<Seq<char>>,
)
    ensures
        ({
            let run = spec_get_runnable_path(cache, host, target, pinned_version);
            &&& run.result matches Ok(path) ==> run.host.files.contains(path)
                && run.cache.cached_path == Some(path)
            &&& run.result is Err ==> run.cache == cache
            &&& cache.wf() ==> run.cache.wf()
        }),
{
    law_call_in_one_piece(cache, host, target, pinned_version);
}

/// A call takes at most eight actions, at most one of them an install, and
/// asks for the latest version only when no version is pinned.
pub proof fn law_calls_are_short(
    cache: CacheView,
    host: Host,
    target: PackageView,
    pinned_version: Option<Seq<char>>,
)
    ensures
        ({
            let run = spec_get_runnable_path(cache, host, target, pinned_version);
            &&& run.trace.len() <= 8
            &&& forall|i: int, j: int|
                0 <= i < j < run.trace.len() ==> !((#[trigger] run.trace[i]) is Install
                    && (#[trigger] run.trace[j]) is Install)
            &&& pinned_version is Some ==> forall|i: int|
                0 <= i < run.trace.len() ==> !((#[trigger] run.trace[i]) is QueryLatestVersion)
        }),
{
    law_call_in_one_piece(cache, host, target, pinned_version);
}

/// An install happens exactly when the cache misses, the target version is
/// known, and the artifact is absent or on record under another version.
pub proof fn law_installs_only_when_needed(
    cache: CacheView,
    host: Host,
    target: PackageView,
    pinned_version: Option<Seq<char>>,
)
    ensures
        spec_has_install(spec_get_runnable_path(cache, host, target, pinned_version).trace)
            <==> spec_installs(cache, host, target, pinned_version),
{
    law_call_in_one_piece(cache, host, target, pinned_version);
    let run = spec_get_runnable_path(cache, host, target, pinned_version);
    if spec_installs(cache, host, target, pinned_version) {
        assert(run.trace[run.trace.len() - 2] is Install);
    }
}

/// With no artifact in place and an install that succeeds and creates it, a
/// call hands out the expected path. The next call for the same target, on
/// what the first one left behind, hands out the same path after probing it
/// and without a word to the registry.
pub proof fn law_fresh_install_then_cache_hit(
    cache: CacheView,
    host: Host,
    target: PackageView,
    pinned_version: Option<Seq<char>>,
)
    requires
        !spec_cache_hit(cache, host),
        !host.files.contains(target.server_path),
        spec_target_version(host, target, pinned_version) matches Ok(version) && ({
            let effect = (host.install)(target.package_name, version);
            effect.outcome is Ok && effect.files.contains(target.server_path)
        }),
    ensures
        ({
            let first = spec_get_runnable_path(cache, host, target, pinned_version);
            let second = spec_get_runnable_path(first.cache, first.host, target, pinned_version);
            &&& first.result == Ok::<Seq<char>, ProvisionErrorView>(target.server_path)
            &&& second.result == first.result
            &&& second.trace == seq![ActionView::ProbeFile { path: target.server_path }]
            &&& spec_no_registry_call(second.trace)
        }),
{
    law_call_in_one_piece(cache, host, target, pinned_version);
    let first = spec_get_runnable_path(cache, host, target, pinned_version);
    law_cache_hit_probes_only(first.cache, first.host, target, pinned_version);
}

/// With the artifact in place and on record under the target version, a call
/// asks which version is installed, installs nothing, and hands out the
/// expected path.
pub proof fn law_matching_version_skips_install(
    cache: CacheView,
    host: Host,
    target: PackageView,
    pinned_version: Option<Seq<char>>,
)
    requires
        !spec_cache_hit(cache, host),
        host.files.contains(target.server_path),
        spec_target_version(host, target, pinned_version) matches Ok(version) && (host.installed)(
            target.package_name,
        ) == Ok::<Option<Seq<char>>, Seq<char>>(Some(version)),
    ensures
        ({
            let run = spec_get_runnable_path(cache, host, target, pinned_version);
            &&& run.result == Ok::<Seq<char>, ProvisionErrorView>(target.server_path)
            &&& spec_performs(
                run.trace,
                ActionView::QueryInstalledVersion { package_name: target.package_name },
            )
            &&& pinned_version is None ==> spec_performs(
                run.trace,
                ActionView::QueryLatestVersion { package_name: target.package_name },
            )
            &&& !spec_has_install(run.trace)
            &&& run.host == host
        }),
{
    law_call_in_one_piece(cache, host, target, pinned_version);
    let run = spec_get_runnable_path(cache, host, target, pinned_version);
    let n = run.trace.len();
    assert(run.trace[n - 2] == ActionView::QueryInstalledVersion {
        package_name: target.package_name,
    });
    if pinned_version is None {
        assert(run.trace[n - 4] == ActionView::QueryLatestVersion {
            package_name: target.package_name,
        });
    }
}

/// With the artifact in place, an install that fails and leaves the artifact
/// where it was does not fail the call: the path is handed out all the same.
pub proof fn law_failed_install_keeps_existing_artifact(
    cache: CacheView,
    host: Host,
    target: PackageView,
    pinned_version: Option<Seq<char>>,
)
    requires
        spec_installs(cache, host, target, pinned_version),
        host.files.contains(target.server_path),
        ({
            let version = spec_target_version(host, target, pinned_version)->Ok_0;
            let effect = (host.install)(target.package_name, version);
            effect.outcome is Err && effect.files.contains(target.server_path)
        }),
    ensures
        ({
            let run = spec_get_runnable_path(cache, host, target, pinned_version);
            &&& run.result == Ok::<Seq<char>, ProvisionErrorView>(target.server_path)
            &&& spec_has_install(run.trace)
        }),
{
    law_call_in_one_piece(cache, host, target, pinned_version);
    law_installs_only_when_needed(cache, host, target, pinned_version);
}

/// With no artifact in place before the install nor after it, a failed
/// install fails the call, and the user is shown the registry's message
/// unchanged.
pub proof fn law_failed_install_without_artifact_propagates(
    cache: CacheView,
    host: Host,
    target: PackageView,
    pinned_version: Option<Seq<char>>,
    message: Seq<char>,
)
    requires
        !spec_cache_hit(cache, host),
        !host.files.contains(target.server_path),
        spec_target_version(host, target, pinned_version) matches Ok(version) && ({
            let effect = (host.install)(target.package_name, version);
            effect.outcome == Err::<(), Seq<char>>(message) && !effect.files.contains(
                target.server_path,
            )
        }),
    ensures
        ({
            let run = spec_get_runnable_path(cache, host, target, pinned_version);
            &&& run.result == Err::<Seq<char>, ProvisionErrorView>(
                ProvisionErrorView::InstallFailed { message },
            )
            &&& spec_message(run.result->Err_0) == message
            &&& run.cache == cache
        }),
{
    law_call_in_one_piece(cache, host, target, pinned_version);
}

/// An install that reports success and leaves no artifact at the expected
/// path fails the call, with a failure that names the package and the path.
pub proof fn law_successful_install_without_artifact_is_fatal(
    cache: CacheView,
    host: Host,
    target: PackageView,
    pinned_version: Option<Seq<char>>,
)
    requires
        spec_installs(cache, host, target, pinned_version),
        ({
            let version = spec_target_version(host, target, pinned_version)->Ok_0;
            let effect = (host.install)(target.package_name, version);
            effect.outcome is Ok && !effect.files.contains(target.server_path)
        }),
    ensures
        ({
            let run = spec_get_runnable_path(cache, host, target, pinned_version);
            &&& run.result == Err::<Seq<char>, ProvisionErrorView>(
                ProvisionErrorView::ArtifactMissingAfterInstall {
                    package_name: target.package_name,
                    path: target.server_path,
                },
            )
            &&& spec_message(run.result->Err_0)
                == "Failed to locate the language server after installation: package "@
                + target.package_name + " has no file at "@ + target.server_path
        }),
{
    law_call_in_one_piece(cache, host, target, pinned_version);
}

/// When the registry cannot tell the latest version, an artifact already in
/// place is handed out as it is and nothing is installed; without one the
/// call fails with the registry's message.
pub proof fn law_query_failure_falls_back_to_local_artifact(
    cache: CacheView,
    host: Host,
    target: PackageView,
    message: Seq<char>,
)
    requires
        !spec_cache_hit(cache, host),
        (host.latest)(target.package_name) == Err::<Seq<char>, Seq<char>>(message),
    ensures
        ({
            let run = spec_get_runnable_path(cache, host, target, None);
            &&& run.result == if host.files.contains(target.server_path) {
                Ok::<Seq<char>, ProvisionErrorView>(target.server_path)
            } else {
                Err(ProvisionErrorView::RegistryQueryFailed { message })
            }
            &&& !spec_has_install(run.trace)
            &&& run.host == host
        }),
{
    law_call_in_one_piece(cache, host, target, None);
}

/// A call that handed out a path, repeated at once on what it left behind,
/// hands out the same path, asks nothing of the registry, and changes
/// neither the cache nor the host.
pub proof fn law_repeat_hits_cache(
    cache: CacheView,
    host: Host,
    target: PackageView,
    pinned_version: Option<Seq<char>>,
)
    requires
        spec_get_runnable_path(cache, host, target, pinned_version).result is Ok,
    ensures
        ({
            let first = spec_get_runnable_path(cache, host, target, pinned_version);
            let second = spec_get_runnable_path(first.cache, first.host, target, pinned_version);
            &&& second.result == first.result
            &&& spec_no_registry_call(second.trace)
            &&& second.trace.len() == 1
            &&& second.cache == first.cache
            &&& second.host == first.host
        }),
{
    let first = spec_get_runnable_path(cache, host, target, pinned_version);
    law_cache_names_verified_file(cache, host, target, pinned_version);
    law_cache_hit_probes_only(first.cache, first.host, target, pinned_version);
}

/// A request under way followed, should it fail, by whole calls for the
/// fallbacks.
spec fn continue_in_order(
    cache: CacheView,
    host: Host,
    request: RequestView,
    fallbacks: Seq<PackageView>,
) -> Run {
    let first = spec_run(cache, host, request);
    if first.result is Ok || fallbacks.len() == 0 {
        first
    } else {
        let rest = spec_try_in_order(
            first.cache,
            first.host,
            fallbacks[0],
            fallbacks.drop_first(),
            request.pinned_version,
        );
        rest.after(first.trace)
    }
}

/// A call with fallbacks, taken up at any point before its current attempt
/// is over, goes on as that attempt does and then as whole calls for the
/// fallbacks do.
proof fn lemma_attempts_continue(cache: CacheView, host: Host, attempts: AttemptsView)
    requires
        !attempts.request.is_finished(),
    ensures
        spec_run_attempts(cache, host, attempts) == continue_in_order(
            cache,
            host,
            attempts.request,
            attempts.fallbacks,
        ),
    decreases attempts.fallbacks.len(), attempts.request.remaining(),
{
    let request = attempts.request;
    let fallbacks = attempts.fallbacks;
    let action = request.pending();
    let answer = host.respond(action);
    let step = spec_advance(cache, request, answer.0);
    let next = spec_advance_attempts(cache, attempts, answer.0);
    let first = spec_run(cache, host, request);
    let first_rest = spec_run(step.0, answer.1, step.1);
    let rest = spec_run_attempts(next.0, answer.1, next.1);
    reveal_with_fuel(spec_run, 2);
    reveal_with_fuel(spec_run_attempts, 2);
    assert(first == first_rest.after(seq![action]));
    assert(spec_run_attempts(cache, host, attempts) == rest.after(seq![action]));
    assert(step.1.pinned_version == request.pinned_version);
    if !step.1.is_finished() {
        lemma_attempts_continue(step.0, answer.1, next.1);
        if !(first_rest.result is Ok || fallbacks.len() == 0) {
            let tail = spec_try_in_order(
                first_rest.cache,
                first_rest.host,
                fallbacks[0],
                fallbacks.drop_first(),
                request.pinned_version,
            );
            assert(seq![action] + (first_rest.trace + tail.trace) =~= (seq![action]
                + first_rest.trace) + tail.trace);
        }
    } else if step.1.phase matches PhaseView::Finished { result: Err(_) } && fallbacks.len() > 0 {
        lemma_attempts_continue(step.0, answer.1, next.1);
        assert(first_rest.trace =~= Seq::<ActionView>::empty());
        assert(first.trace =~= seq![action]);
    } else {
        assert(rest.trace =~= Seq::<ActionView>::empty());
    }
}

/// A call with fallbacks is the same as whole calls made one after the
/// other: for the preferred package first, then for each fallback while the
/// call before it failed. It answers what the last of these calls answers
/// and takes their actions in that order.
pub proof fn law_attempts_try_in_order(
    cache: CacheView,
    host: Host,
    preferred: PackageView,
    fallbacks: Seq<PackageView>,
    pinned_version: Option<Seq<char>>,
)
    ensures
        spec_run_attempts(
            cache,
            host,
            spec_begin_attempts(cache, preferred, fallbacks, pinned_version),
        ) == spec_try_in_order(cache, host, preferred, fallbacks, pinned_version),
{
    lemma_attempts_continue(
        cache,
        host,
        spec_begin_attempts(cache, preferred, fallbacks, pinned_version),
    );
}

/// With one fallback: where the call for the preferred package succeeds,
/// that is the whole call and the fallback is never touched. Where it fails,
/// its failure is dropped and the whole call answers what the call for the
/// fallback answers, success or failure.
pub proof fn law_fallback_after_failure(
    cache: CacheView,
    host: Host,
    preferred: PackageView,
    fallback: PackageView,
    pinned_version: Option<Seq<char>>,
)
    ensures
        ({
            let run = spec_run_attempts(
                cache,
                host,
                spec_begin_attempts(cache, preferred, seq![fallback], pinned_version),
            );
            let first = spec_get_runnable_path(cache, host, preferred, pinned_version);
            let second = spec_get_runnable_path(first.cache, first.host, fallback, pinned_version);
            if first.result is Ok {
                run == first
            } else {
                run == second.after(first.trace)
            }
        }),
{
    law_attempts_try_in_order(cache, host, preferred, seq![fallback], pinned_version);
    reveal_with_fuel(spec_try_in_order, 3);
    assert(seq![fallback].drop_first().len() == 0);
}

} // verus!
