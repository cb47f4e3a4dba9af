//! How a provisioned artifact is started.
//!
//! A native binary is the command itself. A script is handed to the Node
//! runtime as its first argument. Either way the server is told to speak the
//! language server protocol over standard input and output.

use crate::package_utils::ServerType;
use vstd::prelude::*;
use vstd::string::StringExecFns;

verus! {

/// Mathematical value of a list of strings.
pub open spec fn strings_view(strings: Seq<String>) -> Seq<Seq<char>> {
    Seq::new(strings.len(), |i: int| strings[i]@)
}

/// The flags every launch of the server carries.
pub open spec fn spec_server_flags() -> Seq<Seq<char>> {
    seq!["--lsp"@, "--stdio"@]
}

/// The arguments to launch the artifact at `executable` with: the server
/// flags, after the artifact's own path where a runtime is the command.
pub open spec fn spec_launch_arguments(kind: ServerType, executable: Seq<char>) -> Seq<Seq<char>> {
    match kind {
        ServerType::Native => spec_server_flags(),
        ServerType::Node => seq![executable] + spec_server_flags(),
    }
}

/// Whether artifacts of this kind are run by the Node runtime rather than
/// executed themselves.
pub fn needs_runtime(kind: ServerType) -> (needed: bool)
    ensures
        needed == (kind == ServerType::Node),
{
    match kind {
        ServerType::Node => true,
        ServerType::Native => false,
    }
}

/// The argument list for launching the artifact at `executable`.
pub fn launch_arguments(kind: ServerType, executable: &str) -> (arguments: Vec<String>)
    ensures
        strings_view(arguments@) == spec_launch_arguments(kind, executable@),
{
    let mut arguments: Vec<String> = Vec::new();
    if needs_runtime(kind) {
        arguments.push(String::from_str(executable));
    }
    arguments.push(String::from_str("--lsp"));
    arguments.push(String::from_str("--stdio"));
    assert(strings_view(arguments@) =~= spec_launch_arguments(kind, executable@));
    arguments
}

} // verus!
