//! Binary acquisition for the TypeScript native-preview language server.
//!
//! The crate decides which npm package carries the server for a platform,
//! where its executable must lie once installed, and which registry calls and
//! file probes are needed to reach a runnable executable. It performs no I/O:
//! the host carries out each requested action and reports back what happened.
//!
//! - [`package_utils`] names the packages and their expected paths.
//! - [`protocol`] is the vocabulary between provisioner and host.
//! - [`tsgo`] holds the provisioner and its decision procedure, one step at
//!   a time.
//! - [`fallback`] tries several packages in order.
//! - [`launch`] tells how a provisioned artifact is started.
//! - [`host`] models the host mathematically and says what a whole call does.
//! - [`laws`] proves what holds of every call.
//! - [`error`] lists the failures.

pub mod error;
pub mod fallback;
pub mod host;
pub mod laws;
pub mod launch;
pub mod package_utils;
pub mod protocol;
pub mod tsgo;
