use std::collections::{HashMap, HashSet};

use zed_tsgo::error::ProvisionError;
use zed_tsgo::fallback::Attempts;
use zed_tsgo::package_utils::{
    get_node_package, resolve, Architecture, Os, Package, ServerType,
};
use zed_tsgo::protocol::{Action, Event, InstallationStatus};
use zed_tsgo::tsgo::{Phase, TsGoExtension};

/// A file system and a registry in memory.
struct FakeHost {
    files: HashSet<String>,
    latest: Result<String, String>,
    installed: Result<HashMap<String, String>, String>,
    install: Result<(), String>,
    install_creates: Vec<(String, String)>,
    install_removes: Vec<String>,
}

impl FakeHost {
    fn new() -> Self {
        FakeHost {
            files: HashSet::new(),
            latest: Ok("7.0.1".to_string()),
            installed: Ok(HashMap::new()),
            install: Ok(()),
            install_creates: Vec::new(),
            install_removes: Vec::new(),
        }
    }

    /// Lets an install of `package_name` put a file at `path`.
    fn creates(&mut self, package_name: &str, path: &str) {
        self.install_creates.push((package_name.to_string(), path.to_string()));
    }

    /// Puts `version` of `package_name` on record as installed.
    fn record(&mut self, package_name: &str, version: &str) {
        if self.installed.is_err() {
            self.installed = Ok(HashMap::new());
        }
        if let Ok(records) = &mut self.installed {
            records.insert(package_name.to_string(), version.to_string());
        }
    }

    fn perform(&mut self, action: &Action) -> Event {
        match action {
            Action::ProbeFile { path } => Event::FileProbed { is_file: self.files.contains(path) },
            Action::ReportStatus { .. } => Event::StatusReported,
            Action::QueryLatestVersion { .. } => {
                Event::LatestVersion { latest: self.latest.clone() }
            }
            Action::QueryInstalledVersion { package_name } => Event::InstalledVersion {
                installed: match &self.installed {
                    Ok(records) => Ok(records.get(package_name).cloned()),
                    Err(message) => Err(message.clone()),
                },
            },
            Action::Install { package_name, version } => {
                for (owner, path) in &self.install_creates {
                    if owner == package_name {
                        self.files.insert(path.clone());
                    }
                }
                for path in &self.install_removes {
                    self.files.remove(path);
                }
                if self.install.is_ok() {
                    self.record(package_name, version);
                }
                Event::InstallFinished { outcome: self.install.clone() }
            }
            Action::Finish { .. } => unreachable!("a finished request asks for nothing"),
        }
    }
}

/// Runs one call to its end and returns its answer and the actions taken.
fn call(
    extension: &mut TsGoExtension,
    host: &mut FakeHost,
    target: &Package,
    pinned_version: Option<&str>,
) -> (Result<String, ProvisionError>, Vec<Action>) {
    let mut request = extension.begin(target.clone(), pinned_version.map(|v| v.to_string()));
    let mut trace = Vec::new();
    for _ in 0..20 {
        let action = request.pending();
        assert_eq!(request.is_finished(), matches!(action, Action::Finish { .. }));
        if let Action::Finish { result } = action {
            return (result, trace);
        }
        let event = host.perform(&action);
        trace.push(action);
        request = extension.advance(request, event);
    }
    panic!("the request did not finish");
}

/// Runs one call with fallbacks to its end.
fn call_in_order(
    extension: &mut TsGoExtension,
    host: &mut FakeHost,
    preferred: &Package,
    fallbacks: &[Package],
    pinned_version: Option<&str>,
) -> (Result<String, ProvisionError>, Vec<Action>) {
    let mut attempts: Attempts = extension.begin_attempts(
        preferred.clone(),
        fallbacks.to_vec(),
        pinned_version.map(|v| v.to_string()),
    );
    let mut trace = Vec::new();
    for _ in 0..100 {
        let action = attempts.pending();
        assert_eq!(attempts.is_finished(), matches!(action, Action::Finish { .. }));
        if let Action::Finish { result } = action {
            return (result, trace);
        }
        let event = host.perform(&action);
        trace.push(action);
        attempts = extension.advance_attempts(attempts, event);
    }
    panic!("the call did not finish");
}

fn linux() -> Package {
    resolve(Os::Linux, Architecture::X8664).expect("supported platform")
}

const LINUX_NAME: &str = "@typescript/native-preview-linux-x64";
const LINUX_PATH: &str = "node_modules/@typescript/native-preview-linux-x64/lib/tsgo";

fn probe(path: &str) -> Action {
    Action::ProbeFile { path: path.to_string() }
}

fn report(status: InstallationStatus) -> Action {
    Action::ReportStatus { status }
}

fn query_latest(name: &str) -> Action {
    Action::QueryLatestVersion { package_name: name.to_string() }
}

fn query_installed(name: &str) -> Action {
    Action::QueryInstalledVersion { package_name: name.to_string() }
}

fn install(name: &str, version: &str) -> Action {
    Action::Install { package_name: name.to_string(), version: version.to_string() }
}

fn registry_calls(trace: &[Action]) -> usize {
    trace.iter().filter(|action| action.is_registry_call()).count()
}

#[test]
fn fresh_install_then_cache_hit() {
    let mut extension = TsGoExtension::new();
    let mut host = FakeHost::new();
    host.creates(LINUX_NAME, LINUX_PATH);

    let (result, trace) = call(&mut extension, &mut host, &linux(), None);
    assert_eq!(result, Ok(LINUX_PATH.to_string()));
    assert_eq!(
        trace,
        vec![
            report(InstallationStatus::CheckingForUpdate),
            query_latest(LINUX_NAME),
            probe(LINUX_PATH),
            report(InstallationStatus::Downloading),
            install(LINUX_NAME, "7.0.1"),
            probe(LINUX_PATH),
        ]
    );
    assert_eq!(extension.cached_path(), Some(LINUX_PATH.to_string()));
    assert_eq!(extension.cached_target(), Some(linux()));

    let (again, trace) = call(&mut extension, &mut host, &linux(), None);
    assert_eq!(again, Ok(LINUX_PATH.to_string()));
    assert_eq!(trace, vec![probe(LINUX_PATH)]);
    assert_eq!(registry_calls(&trace), 0);
}

#[test]
fn matching_version_skips_install() {
    let mut extension = TsGoExtension::new();
    let mut host = FakeHost::new();
    host.files.insert(LINUX_PATH.to_string());
    host.record(LINUX_NAME, "7.0.1");

    let (result, trace) = call(&mut extension, &mut host, &linux(), None);
    assert_eq!(result, Ok(LINUX_PATH.to_string()));
    assert_eq!(
        trace,
        vec![
            report(InstallationStatus::CheckingForUpdate),
            query_latest(LINUX_NAME),
            probe(LINUX_PATH),
            query_installed(LINUX_NAME),
            probe(LINUX_PATH),
        ]
    );
    assert!(!trace.iter().any(|action| matches!(action, Action::Install { .. })));
    assert_eq!(extension.cached_path(), Some(LINUX_PATH.to_string()));
}

#[test]
fn other_version_on_record_installs() {
    let mut extension = TsGoExtension::new();
    let mut host = FakeHost::new();
    host.files.insert(LINUX_PATH.to_string());
    host.record(LINUX_NAME, "7.0.0");

    let (result, trace) = call(&mut extension, &mut host, &linux(), None);
    assert_eq!(result, Ok(LINUX_PATH.to_string()));
    assert_eq!(
        trace,
        vec![
            report(InstallationStatus::CheckingForUpdate),
            query_latest(LINUX_NAME),
            probe(LINUX_PATH),
            query_installed(LINUX_NAME),
            report(InstallationStatus::Downloading),
            install(LINUX_NAME, "7.0.1"),
            probe(LINUX_PATH),
        ]
    );
}

#[test]
fn no_version_on_record_installs() {
    for installed in [Ok(HashMap::new()), Err("no package.json".to_string())] {
        let mut extension = TsGoExtension::new();
        let mut host = FakeHost::new();
        host.files.insert(LINUX_PATH.to_string());
        host.installed = installed;

        let (result, trace) = call(&mut extension, &mut host, &linux(), None);
        assert_eq!(result, Ok(LINUX_PATH.to_string()));
        assert!(trace.contains(&install(LINUX_NAME, "7.0.1")));
    }
}

#[test]
fn pinned_version_is_used_verbatim() {
    let mut extension = TsGoExtension::new();
    let mut host = FakeHost::new();
    host.latest = Err("the registry must not be asked".to_string());
    host.creates(LINUX_NAME, LINUX_PATH);

    let (result, trace) = call(&mut extension, &mut host, &linux(), Some("7.0.0-dev.20250101"));
    assert_eq!(result, Ok(LINUX_PATH.to_string()));
    assert_eq!(
        trace,
        vec![
            report(InstallationStatus::CheckingForUpdate),
            probe(LINUX_PATH),
            report(InstallationStatus::Downloading),
            install(LINUX_NAME, "7.0.0-dev.20250101"),
            probe(LINUX_PATH),
        ]
    );
}

#[test]
fn pinned_version_already_installed() {
    let mut extension = TsGoExtension::new();
    let mut host = FakeHost::new();
    host.files.insert(LINUX_PATH.to_string());
    host.record(LINUX_NAME, "6.9.0");

    let (result, trace) = call(&mut extension, &mut host, &linux(), Some("6.9.0"));
    assert_eq!(result, Ok(LINUX_PATH.to_string()));
    assert_eq!(
        trace,
        vec![
            report(InstallationStatus::CheckingForUpdate),
            probe(LINUX_PATH),
            query_installed(LINUX_NAME),
            probe(LINUX_PATH),
        ]
    );
}

#[test]
fn failed_install_keeps_existing_artifact() {
    let mut extension = TsGoExtension::new();
    let mut host = FakeHost::new();
    host.files.insert(LINUX_PATH.to_string());
    host.record(LINUX_NAME, "7.0.0");
    host.install = Err("network unreachable".to_string());

    let (result, trace) = call(&mut extension, &mut host, &linux(), None);
    assert_eq!(result, Ok(LINUX_PATH.to_string()));
    assert!(trace.contains(&install(LINUX_NAME, "7.0.1")));
    assert_eq!(extension.cached_path(), Some(LINUX_PATH.to_string()));
}

#[test]
fn failed_install_without_artifact_propagates() {
    let mut extension = TsGoExtension::new();
    let mut host = FakeHost::new();
    host.install = Err("network unreachable".to_string());

    let (result, trace) = call(&mut extension, &mut host, &linux(), None);
    assert_eq!(
        result,
        Err(ProvisionError::InstallFailed { message: "network unreachable".to_string() })
    );
    assert_eq!(result.unwrap_err().message(), "network unreachable");
    assert_eq!(trace.last(), Some(&probe(LINUX_PATH)));
    assert_eq!(extension.cached_path(), None);
    assert_eq!(extension.cached_target(), None);
}

#[test]
fn failed_install_that_left_the_artifact_is_tolerated() {
    let mut extension = TsGoExtension::new();
    let mut host = FakeHost::new();
    host.install = Err("postinstall script failed".to_string());
    host.creates(LINUX_NAME, LINUX_PATH);

    let (result, _) = call(&mut extension, &mut host, &linux(), None);
    assert_eq!(result, Ok(LINUX_PATH.to_string()));
}

#[test]
fn successful_install_without_artifact_is_fatal() {
    let mut extension = TsGoExtension::new();
    let mut host = FakeHost::new();

    let (result, _) = call(&mut extension, &mut host, &linux(), None);
    assert_eq!(
        result,
        Err(ProvisionError::ArtifactMissingAfterInstall {
            package_name: LINUX_NAME.to_string(),
            path: LINUX_PATH.to_string(),
        })
    );
    let message = result.unwrap_err().message();
    assert!(message.contains(LINUX_NAME));
    assert!(message.contains(LINUX_PATH));
    assert_eq!(extension.cached_path(), None);
}

#[test]
fn successful_install_that_removed_the_artifact_is_fatal() {
    let mut extension = TsGoExtension::new();
    let mut host = FakeHost::new();
    host.files.insert(LINUX_PATH.to_string());
    host.install_removes.push(LINUX_PATH.to_string());

    let (result, _) = call(&mut extension, &mut host, &linux(), None);
    assert_eq!(
        result,
        Err(ProvisionError::ArtifactMissingAfterInstall {
            package_name: LINUX_NAME.to_string(),
            path: LINUX_PATH.to_string(),
        })
    );
}

#[test]
fn query_failure_without_artifact_is_reported() {
    let mut extension = TsGoExtension::new();
    let mut host = FakeHost::new();
    host.latest = Err("registry timed out".to_string());

    let (result, trace) = call(&mut extension, &mut host, &linux(), None);
    assert_eq!(
        result,
        Err(ProvisionError::RegistryQueryFailed { message: "registry timed out".to_string() })
    );
    assert_eq!(
        trace,
        vec![
            report(InstallationStatus::CheckingForUpdate),
            query_latest(LINUX_NAME),
            probe(LINUX_PATH),
        ]
    );
}

#[test]
fn query_failure_falls_back_to_local_artifact() {
    let mut extension = TsGoExtension::new();
    let mut host = FakeHost::new();
    host.latest = Err("registry timed out".to_string());
    host.files.insert(LINUX_PATH.to_string());

    let (result, trace) = call(&mut extension, &mut host, &linux(), None);
    assert_eq!(result, Ok(LINUX_PATH.to_string()));
    assert_eq!(registry_calls(&trace), 1);
    assert_eq!(extension.cached_path(), Some(LINUX_PATH.to_string()));
}

#[test]
fn stale_cache_runs_the_whole_procedure() {
    let mut extension = TsGoExtension::new();
    let mut host = FakeHost::new();
    host.creates(LINUX_NAME, LINUX_PATH);
    let (first, _) = call(&mut extension, &mut host, &linux(), None);
    assert_eq!(first, Ok(LINUX_PATH.to_string()));

    host.files.clear();
    let (second, trace) = call(&mut extension, &mut host, &linux(), None);
    assert_eq!(second, Ok(LINUX_PATH.to_string()));
    assert_eq!(
        trace,
        vec![
            probe(LINUX_PATH),
            report(InstallationStatus::CheckingForUpdate),
            query_latest(LINUX_NAME),
            probe(LINUX_PATH),
            report(InstallationStatus::Downloading),
            install(LINUX_NAME, "7.0.1"),
            probe(LINUX_PATH),
        ]
    );
}

#[test]
fn longest_call_takes_eight_actions() {
    let mut extension = TsGoExtension::new();
    let mut host = FakeHost::new();
    host.creates(LINUX_NAME, LINUX_PATH);
    call(&mut extension, &mut host, &linux(), None).0.expect("first call installs");

    let node = get_node_package();
    host.files.clear();
    host.files.insert(node.server_path.clone());
    host.record(&node.package_name, "6.0.0");
    let (result, trace) = call(&mut extension, &mut host, &node, None);
    assert_eq!(result, Ok(node.server_path.clone()));
    assert_eq!(trace.len(), 8);
    assert_eq!(extension.cached_target(), Some(node));
}

#[test]
fn repeat_hits_cache() {
    let mut extension = TsGoExtension::new();
    let mut host = FakeHost::new();
    host.files.insert(LINUX_PATH.to_string());
    host.record(LINUX_NAME, "7.0.1");

    let (first, first_trace) = call(&mut extension, &mut host, &linux(), None);
    let (second, second_trace) = call(&mut extension, &mut host, &linux(), None);
    assert_eq!(first, second);
    assert!(first.is_ok());
    assert_eq!(registry_calls(&first_trace), 2);
    assert_eq!(registry_calls(&second_trace), 0);
    assert_eq!(second_trace, vec![probe(LINUX_PATH)]);
}

#[test]
fn cache_hit_answers_for_any_target() {
    let mut extension = TsGoExtension::new();
    let mut host = FakeHost::new();
    let node = get_node_package();
    host.creates(&node.package_name, &node.server_path);
    let (first, _) = call(&mut extension, &mut host, &node, None);
    assert_eq!(first, Ok(node.server_path.clone()));

    let (second, trace) = call(&mut extension, &mut host, &linux(), None);
    assert_eq!(second, Ok(node.server_path.clone()));
    assert_eq!(trace, vec![probe(&node.server_path)]);
    assert_eq!(extension.cached_target(), Some(node));
}

#[test]
fn failure_leaves_the_cache_alone() {
    let mut extension = TsGoExtension::new();
    let mut host = FakeHost::new();
    host.creates(LINUX_NAME, LINUX_PATH);
    call(&mut extension, &mut host, &linux(), None).0.expect("first call installs");

    host.files.clear();
    host.install_creates.clear();
    host.install = Err("disk full".to_string());
    let (result, _) = call(&mut extension, &mut host, &linux(), None);
    assert_eq!(result, Err(ProvisionError::InstallFailed { message: "disk full".to_string() }));
    assert_eq!(extension.cached_path(), Some(LINUX_PATH.to_string()));
    assert_eq!(extension.cached_target(), Some(linux()));
}

#[test]
fn new_extension_has_no_cache() {
    let extension = TsGoExtension::new();
    assert_eq!(extension.cached_path(), None);
    assert_eq!(extension.cached_target(), None);
    let request = extension.begin(linux(), None);
    assert!(matches!(request.phase, Phase::AnnouncingCheck));
    assert_eq!(request.pending(), report(InstallationStatus::CheckingForUpdate));
}

#[test]
fn unexpected_reports_are_ignored() {
    let mut extension = TsGoExtension::new();
    let request = extension.begin(linux(), None);
    let request = extension.advance(request, Event::FileProbed { is_file: true });
    assert!(matches!(request.phase, Phase::AnnouncingCheck));
    let request = extension.advance(request, Event::InstallFinished { outcome: Ok(()) });
    assert!(matches!(request.phase, Phase::AnnouncingCheck));
    let request = extension.advance(request, Event::StatusReported);
    assert_eq!(request.pending(), query_latest(LINUX_NAME));
    let request = extension.advance(request, Event::StatusReported);
    assert_eq!(request.pending(), query_latest(LINUX_NAME));
    assert_eq!(extension.cached_path(), None);
}

#[test]
fn finished_requests_stay_finished() {
    let mut extension = TsGoExtension::new();
    let mut request = extension.begin(linux(), Some("1.2.3".to_string()));
    for event in [
        Event::StatusReported,
        Event::FileProbed { is_file: true },
        Event::InstalledVersion { installed: Ok(Some("1.2.3".to_string())) },
        Event::FileProbed { is_file: false },
    ] {
        request = extension.advance(request, event);
    }
    let missing = Action::Finish {
        result: Err(ProvisionError::ArtifactMissingAfterInstall {
            package_name: LINUX_NAME.to_string(),
            path: LINUX_PATH.to_string(),
        }),
    };
    assert!(request.is_finished());
    assert_eq!(request.pending(), missing);
    let request = extension.advance(request, Event::FileProbed { is_file: true });
    assert_eq!(request.pending(), missing);
    assert_eq!(extension.cached_path(), None);
}

#[test]
fn binary_exists_reads_a_probe() {
    let extension = TsGoExtension::new();
    assert!(extension.binary_exists(&Event::FileProbed { is_file: true }));
    assert!(!extension.binary_exists(&Event::FileProbed { is_file: false }));
    assert!(!extension.binary_exists(&Event::StatusReported));
    assert!(!extension.binary_exists(&Event::InstallFinished { outcome: Ok(()) }));
}

#[test]
fn should_install_or_update_table() {
    let extension = TsGoExtension::new();
    let same = Some("1.0.0".to_string());
    let other = Some("1.0.1".to_string());
    assert!(!extension.should_install_or_update(true, &same, "1.0.0"));
    assert!(extension.should_install_or_update(true, &other, "1.0.0"));
    assert!(extension.should_install_or_update(true, &None, "1.0.0"));
    assert!(extension.should_install_or_update(false, &same, "1.0.0"));
    assert!(extension.should_install_or_update(false, &other, "1.0.0"));
    assert!(extension.should_install_or_update(false, &None, "1.0.0"));
    assert!(extension.should_install_or_update(true, &Some("1.0.0 ".to_string()), "1.0.0"));
    assert!(!extension.should_install_or_update(true, &Some(String::new()), ""));
}

#[test]
fn registry_calls_are_told_apart() {
    assert!(query_latest("p").is_registry_call());
    assert!(query_installed("p").is_registry_call());
    assert!(install("p", "1").is_registry_call());
    assert!(!probe("p").is_registry_call());
    assert!(!report(InstallationStatus::Downloading).is_registry_call());
    assert!(!Action::Finish { result: Ok("p".to_string()) }.is_registry_call());
}

#[test]
fn action_equality() {
    let actions = [
        probe("a"),
        probe("b"),
        report(InstallationStatus::CheckingForUpdate),
        report(InstallationStatus::Downloading),
        query_latest("a"),
        query_installed("a"),
        install("a", "1"),
        install("a", "2"),
        Action::Finish { result: Ok("a".to_string()) },
        Action::Finish { result: Err(ProvisionError::UnsupportedArchitecture) },
    ];
    for (i, left) in actions.iter().enumerate() {
        for (j, right) in actions.iter().enumerate() {
            assert_eq!(left == right, i == j);
        }
    }
}

#[test]
fn preferred_package_wins_when_it_works() {
    let node = get_node_package();
    let mut extension = TsGoExtension::new();
    let mut host = FakeHost::new();
    host.creates(LINUX_NAME, LINUX_PATH);
    host.creates(&node.package_name, &node.server_path);

    let mut lone = TsGoExtension::new();
    let mut lone_host = FakeHost::new();
    lone_host.creates(LINUX_NAME, LINUX_PATH);
    let (expected, expected_trace) = call(&mut lone, &mut lone_host, &linux(), None);

    let (result, trace) = call_in_order(&mut extension, &mut host, &linux(), &[node], None);
    assert_eq!(result, Ok(LINUX_PATH.to_string()));
    assert_eq!(result, expected);
    assert_eq!(trace, expected_trace);
    assert_eq!(extension.cached_target().map(|t| t.server_type), Some(ServerType::Native));
}

#[test]
fn fallback_is_tried_after_failure() {
    let node = get_node_package();
    let mut extension = TsGoExtension::new();
    let mut host = FakeHost::new();
    host.creates(&node.package_name, &node.server_path);

    let (result, trace) = call_in_order(&mut extension, &mut host, &linux(), &[node.clone()], None);
    assert_eq!(result, Ok(node.server_path.clone()));
    assert_eq!(
        trace,
        vec![
            report(InstallationStatus::CheckingForUpdate),
            query_latest(LINUX_NAME),
            probe(LINUX_PATH),
            report(InstallationStatus::Downloading),
            install(LINUX_NAME, "7.0.1"),
            probe(LINUX_PATH),
            report(InstallationStatus::CheckingForUpdate),
            query_latest(&node.package_name),
            probe(&node.server_path),
            report(InstallationStatus::Downloading),
            install(&node.package_name, "7.0.1"),
            probe(&node.server_path),
        ]
    );
    assert_eq!(extension.cached_path(), Some(node.server_path.clone()));
    assert_eq!(extension.cached_target(), Some(node));
}

#[test]
fn only_the_last_failure_is_reported() {
    let node = get_node_package();
    let mut extension = TsGoExtension::new();
    let mut host = FakeHost::new();
    host.latest = Err("registry timed out".to_string());

    let (first, _) = call(&mut TsGoExtension::new(), &mut FakeHost::new(), &linux(), None);
    assert_eq!(
        first,
        Err(ProvisionError::ArtifactMissingAfterInstall {
            package_name: LINUX_NAME.to_string(),
            path: LINUX_PATH.to_string(),
        })
    );

    let (result, trace) = call_in_order(&mut extension, &mut host, &linux(), &[node.clone()], None);
    assert_eq!(
        result,
        Err(ProvisionError::RegistryQueryFailed { message: "registry timed out".to_string() })
    );
    assert_eq!(
        trace,
        vec![
            report(InstallationStatus::CheckingForUpdate),
            query_latest(LINUX_NAME),
            probe(LINUX_PATH),
            report(InstallationStatus::CheckingForUpdate),
            query_latest(&node.package_name),
            probe(&node.server_path),
        ]
    );
    assert_eq!(extension.cached_path(), None);
}

#[test]
fn fallbacks_keep_the_pin() {
    let node = get_node_package();
    let mut extension = TsGoExtension::new();
    let mut host = FakeHost::new();
    host.creates(&node.package_name, &node.server_path);

    let (result, trace) =
        call_in_order(&mut extension, &mut host, &linux(), &[node.clone()], Some("6.5.4"));
    assert_eq!(result, Ok(node.server_path.clone()));
    assert!(trace.contains(&install(LINUX_NAME, "6.5.4")));
    assert!(trace.contains(&install(&node.package_name, "6.5.4")));
    assert!(!trace.iter().any(|action| matches!(action, Action::QueryLatestVersion { .. })));
}

#[test]
fn no_fallbacks_is_a_plain_call() {
    let mut extension = TsGoExtension::new();
    let mut host = FakeHost::new();
    let (result, trace) = call_in_order(&mut extension, &mut host, &linux(), &[], None);
    let (expected, expected_trace) =
        call(&mut TsGoExtension::new(), &mut FakeHost::new(), &linux(), None);
    assert_eq!(result, expected);
    assert_eq!(trace, expected_trace);
}

#[test]
fn three_candidates_are_tried_in_order() {
    let node = get_node_package();
    let mac = resolve(Os::Mac, Architecture::Aarch64).expect("supported platform");
    let mut extension = TsGoExtension::new();
    let mut host = FakeHost::new();
    host.install = Err("offline".to_string());
    host.files.insert(node.server_path.clone());

    let (result, trace) =
        call_in_order(&mut extension, &mut host, &linux(), &[mac.clone(), node.clone()], None);
    assert_eq!(result, Ok(node.server_path.clone()));
    let installs: Vec<&Action> =
        trace.iter().filter(|action| matches!(action, Action::Install { .. })).collect();
    assert_eq!(
        installs,
        vec![
            &install(LINUX_NAME, "7.0.1"),
            &install(&mac.package_name, "7.0.1"),
            &install(&node.package_name, "7.0.1"),
        ]
    );
}

#[test]
fn cache_hit_ends_a_call_with_fallbacks_at_once() {
    let node = get_node_package();
    let mut extension = TsGoExtension::new();
    let mut host = FakeHost::new();
    host.creates(&node.package_name, &node.server_path);
    call_in_order(&mut extension, &mut host, &linux(), &[node.clone()], None)
        .0
        .expect("the fallback installs");

    let (result, trace) = call_in_order(&mut extension, &mut host, &linux(), &[node.clone()], None);
    assert_eq!(result, Ok(node.server_path.clone()));
    assert_eq!(trace, vec![probe(&node.server_path)]);
    assert_eq!(extension.cached_target().map(|t| t.server_type), Some(ServerType::Node));
}

#[test]
fn installed_version_reads_a_lookup() {
    let extension = TsGoExtension::new();
    assert_eq!(
        extension.get_installed_version(Ok(Some("1.2.3".to_string()))),
        Some("1.2.3".to_string())
    );
    assert_eq!(extension.get_installed_version(Ok(None)), None);
    assert_eq!(extension.get_installed_version(Err("no node_modules".to_string())), None);
}

#[test]
fn unsupported_architecture_asks_nothing() {
    let extension = TsGoExtension::new();
    for os in [Os::Mac, Os::Linux, Os::Windows] {
        let opened = extension.begin_for_platform(os, Architecture::X86, None);
        assert_eq!(opened.err(), Some(ProvisionError::UnsupportedArchitecture));
    }
}

#[test]
fn platform_call_prefers_native_and_falls_back_to_node() {
    let node = get_node_package();
    let mut extension = TsGoExtension::new();
    let attempts = extension
        .begin_for_platform(Os::Linux, Architecture::X8664, Some("7.0.1".to_string()))
        .expect("supported platform");
    assert_eq!(attempts.request.target, linux());
    assert_eq!(attempts.request.pinned_version, Some("7.0.1".to_string()));
    assert_eq!(attempts.fallbacks, vec![node.clone()]);

    let mut host = FakeHost::new();
    host.creates(&node.package_name, &node.server_path);
    let mut attempts = attempts;
    let mut trace = Vec::new();
    while !attempts.is_finished() {
        let action = attempts.pending();
        let event = host.perform(&action);
        trace.push(action);
        attempts = extension.advance_attempts(attempts, event);
    }
    assert_eq!(attempts.pending(), Action::Finish { result: Ok(node.server_path.clone()) });
    assert_eq!(
        trace,
        vec![
            report(InstallationStatus::CheckingForUpdate),
            probe(LINUX_PATH),
            report(InstallationStatus::Downloading),
            install(LINUX_NAME, "7.0.1"),
            probe(LINUX_PATH),
            report(InstallationStatus::CheckingForUpdate),
            probe(&node.server_path),
            report(InstallationStatus::Downloading),
            install(&node.package_name, "7.0.1"),
            probe(&node.server_path),
        ]
    );
    assert_eq!(extension.cached_target(), Some(node));
}
