//! Package identities: which npm package holds the server for a platform and
//! where its executable is expected below the install directory.

use crate::error::{ProvisionError, ProvisionErrorView};
use vstd::prelude::*;
use vstd::string::StringExecFns;

verus! {

/// How an installed artifact is started.
#[derive(Debug, Clone, Copy, PartialEq, Eq, Structural)]
pub enum ServerType {
    /// A script that needs the Node runtime to run it.
    Node,
    /// A natively executable binary.
    Native,
}

/// Operating systems the editor runs on.
#[derive(Debug, Clone, Copy, PartialEq, Eq, Structural)]
pub enum Os {
    Mac,
    Linux,
    Windows,
}

/// CPU architectures the editor runs on.
#[derive(Debug, Clone, Copy, PartialEq, Eq, Structural)]
pub enum Architecture {
    Aarch64,
    X86,
    X8664,
}

/// The platform as Node reports it: `process.platform` and `process.arch`.
#[derive(Debug)]
pub struct Process {
    pub platform: String,
    pub arch: String,
}

/// A package of the registry together with the file that must exist once it
/// is installed.
#[derive(Debug)]
pub struct Package {
    pub package_name: String,
    pub server_path: String,
    pub server_type: ServerType,
}

/// Mathematical value of a [`Package`].
pub struct PackageView {
    pub package_name: Seq<char>,
    pub server_path: Seq<char>,
    pub server_type: ServerType,
}

impl View for Package {
    type V = PackageView;

    open spec fn view(&self) -> PackageView {
        PackageView {
            package_name: self.package_name@,
            server_path: self.server_path@,
            server_type: self.server_type,
        }
    }
}

impl Clone for Process {
    fn clone(&self) -> (copy: Self)
        ensures
            copy.platform@ == self.platform@,
            copy.arch@ == self.arch@,
    {
        Process { platform: self.platform.clone(), arch: self.arch.clone() }
    }
}

impl Clone for Package {
    fn clone(&self) -> (copy: Self)
        ensures
            copy@ == self@,
    {
        Package {
            package_name: self.package_name.clone(),
            server_path: self.server_path.clone(),
            server_type: self.server_type,
        }
    }
}

impl PartialEq for Package {
    fn eq(&self, other: &Self) -> (equal: bool) {
        self.package_name == other.package_name && self.server_path == other.server_path
            && self.server_type == other.server_type
    }
}

impl Eq for Package {

}

impl vstd::std_specs::cmp::PartialEqSpecImpl for Package {
    open spec fn obeys_eq_spec() -> bool {
        true
    }

    open spec fn eq_spec(&self, other: &Self) -> bool {
        self@ == other@
    }
}

/// Registry name shared by every package of the server.
pub open spec fn package_base() -> Seq<char> {
    "@typescript/native-preview"@
}

/// Directory below which the registry unpacks packages.
pub open spec fn install_root() -> Seq<char> {
    "node_modules"@
}

/// `<base>-<platform>-<arch>`.
pub open spec fn spec_package_name(platform: Seq<char>, arch: Seq<char>) -> Seq<char> {
    package_base() + "-"@ + platform + "-"@ + arch
}

/// File extension of executables: `.exe` on the Windows platform token,
/// nothing elsewhere.
pub open spec fn spec_exe_suffix(platform: Seq<char>) -> Seq<char> {
    if platform == "win32"@ {
        ".exe"@
    } else {
        Seq::empty()
    }
}

/// `<install-root>/<package-name>/lib/tsgo` plus the executable suffix.
pub open spec fn spec_server_path(platform: Seq<char>, arch: Seq<char>) -> Seq<char> {
    install_root() + "/"@ + spec_package_name(platform, arch) + "/lib/tsgo"@ + spec_exe_suffix(
        platform,
    )
}

/// The native package for a platform given by its registry tokens.
pub open spec fn spec_native_package(platform: Seq<char>, arch: Seq<char>) -> PackageView {
    PackageView {
        package_name: spec_package_name(platform, arch),
        server_path: spec_server_path(platform, arch),
        server_type: ServerType::Native,
    }
}

/// The platform-independent package, run through Node.
pub open spec fn spec_node_package() -> PackageView {
    PackageView {
        package_name: package_base(),
        server_path: install_root() + "/"@ + package_base() + "/bin/tsgo.js"@,
        server_type: ServerType::Node,
    }
}

/// Registry token of an operating system.
pub open spec fn spec_platform_token(os: Os) -> Seq<char> {
    match os {
        Os::Mac => "darwin"@,
        Os::Linux => "linux"@,
        Os::Windows => "win32"@,
    }
}

/// Registry token of an architecture; 32-bit x86 has none.
pub open spec fn spec_arch_token(arch: Architecture) -> Option<Seq<char>> {
    match arch {
        Architecture::Aarch64 => Some("arm64"@),
        Architecture::X86 => None,
        Architecture::X8664 => Some("x64"@),
    }
}

/// Whether `arch` is the registry token of an architecture the server is
/// built for: `arm64` or `x64`, and nothing else.
pub open spec fn spec_supported_arch(arch: Seq<char>) -> bool {
    arch == "arm64"@ || arch == "x64"@
}

/// The package a platform resolves to, or the reason it has none.
pub open spec fn spec_resolve(os: Os, arch: Architecture) -> Result<
    PackageView,
    ProvisionErrorView,
> {
    match spec_arch_token(arch) {
        Some(token) => Ok(spec_native_package(spec_platform_token(os), token)),
        None => Err(ProvisionErrorView::UnsupportedArchitecture),
    }
}

/// What a finished run of `node -p "JSON.stringify(process)"` yields: the
/// decoded output when the exit status is zero, and a fixed complaint for any
/// other status or none at all.
pub open spec fn spec_node_process(
    status: Option<i32>,
    decoded: Result<(Seq<char>, Seq<char>), Seq<char>>,
) -> Result<(Seq<char>, Seq<char>), Seq<char>> {
    if status == Some(0i32) {
        decoded
    } else {
        Err("unable to get the node process variable"@)
    }
}

/// Mathematical value of a decoding result: platform and architecture, or the
/// decoder's complaint.
pub open spec fn decoded_view(decoded: Result<Process, String>) -> Result<
    (Seq<char>, Seq<char>),
    Seq<char>,
> {
    match decoded {
        Ok(process) => Ok((process.platform@, process.arch@)),
        Err(message) => Err(message@),
    }
}

/// Judges a finished run of Node that was asked to print its `process`
/// object. `status` is the exit status of the run, `decoded` what the decoder
/// made of its output.
pub fn get_node_process(status: Option<i32>, decoded: Result<Process, String>) -> (outcome: Result<
    Process,
    String,
>)
    ensures
        decoded_view(outcome) == spec_node_process(status, decoded_view(decoded)),
{
    match status {
        Some(code) => {
            if code == 0 {
                return decoded;
            }
        },
        None => {},
    }
    Err(String::from_str("unable to get the node process variable"))
}

/// The registry name of the platform package for `process`.
pub fn get_package_name(process: &Process) -> (name: String)
    ensures
        name@ == spec_package_name(process.platform@, process.arch@),
{
    let mut name = String::from_str("@typescript/native-preview");
    name.append("-");
    name.append(process.platform.as_str());
    name.append("-");
    name.append(process.arch.as_str());
    name
}

/// Where the executable of the platform package for `process` lies once the
/// package is installed.
pub fn get_server_path(process: &Process) -> (path: String)
    ensures
        path@ == spec_server_path(process.platform@, process.arch@),
{
    let name = get_package_name(process);
    let windows = String::from_str("win32");
    let mut path = String::from_str("node_modules");
    path.append("/");
    path.append(name.as_str());
    path.append("/lib/tsgo");
    if process.platform == windows {
        path.append(".exe");
    }
    path
}

/// Whether `arch` is the registry token of an architecture the server is
/// built for.
pub fn supported_arch(arch: &String) -> (supported: bool)
    ensures
        supported == spec_supported_arch(arch@),
{
    let arm64 = String::from_str("arm64");
    let x64 = String::from_str("x64");
    *arch == arm64 || *arch == x64
}

/// The native package for the platform Node reported. There is none where
/// Node reported nothing, and none for an architecture the server is not
/// built for: no package is ever made up from such an architecture's name.
pub fn get_native_package(process: Option<Process>) -> (package: Option<Package>)
    ensures
        package is Some <==> (process matches Some(p) && (p.arch@ == "arm64"@ || p.arch@
            == "x64"@)),
        package matches Some(found) ==> found@ == spec_native_package(
            process->0.platform@,
            process->0.arch@,
        ),
{
    match process {
        Some(process) => {
            if supported_arch(&process.arch) {
                Some(
                    Package {
                        package_name: get_package_name(&process),
                        server_path: get_server_path(&process),
                        server_type: ServerType::Native,
                    },
                )
            } else {
                None
            }
        },
        None => None,
    }
}

/// The platform-independent package.
pub fn get_node_package() -> (package: Package)
    ensures
        package@ == spec_node_package(),
{
    let mut path = String::from_str("node_modules");
    path.append("/");
    path.append("@typescript/native-preview");
    path.append("/bin/tsgo.js");
    Package {
        package_name: String::from_str("@typescript/native-preview"),
        server_path: path,
        server_type: ServerType::Node,
    }
}

/// The registry's name for an operating system.
pub fn platform_token(os: Os) -> (token: &'static str)
    ensures
        token@ == spec_platform_token(os),
{
    match os {
        Os::Mac => "darwin",
        Os::Linux => "linux",
        Os::Windows => "win32",
    }
}

/// The registry's name for an architecture, or `None` where the server is not
/// built for it.
pub fn arch_token(arch: Architecture) -> (token: Option<&'static str>)
    ensures
        token is Some <==> spec_arch_token(arch) is Some,
        token matches Some(t) ==> Some(t@) == spec_arch_token(arch),
{
    match arch {
        Architecture::Aarch64 => Some("arm64"),
        Architecture::X86 => None,
        Architecture::X8664 => Some("x64"),
    }
}

/// Maps a platform to its native package. Fails on an architecture without a
/// package, and on nothing else.
pub fn resolve(os: Os, arch: Architecture) -> (target: Result<Package, ProvisionError>)
    ensures
        target is Err <==> arch == Architecture::X86,
        target matches Ok(package) ==> Ok::<PackageView, ProvisionErrorView>(package@)
            == spec_resolve(os, arch),
        target matches Err(error) ==> error@ == ProvisionErrorView::UnsupportedArchitecture,
{
    match arch_token(arch) {
        Some(token) => {
            let process = Process {
                platform: String::from_str(platform_token(os)),
                arch: String::from_str(token),
            };
            Ok(
                Package {
                    package_name: get_package_name(&process),
                    server_path: get_server_path(&process),
                    server_type: ServerType::Native,
                },
            )
        },
        None => Err(ProvisionError::UnsupportedArchitecture),
    }
}

} // verus!
