//! The failures a provisioning request can end in.

use vstd::prelude::*;
use vstd::string::StringExecFns;

verus! {

/// Why no runnable artifact could be handed out.
#[derive(Debug)]
pub enum ProvisionError {
    /// The CPU architecture has no package. Nothing was asked of the registry.
    UnsupportedArchitecture,
    /// The registry could not tell the latest version and no local artifact
    /// could stand in. `message` is the registry's own text.
    RegistryQueryFailed { message: String },
    /// The install failed and left no usable artifact. `message` is the
    /// registry's own text.
    InstallFailed { message: String },
    /// Nothing stopped the install, and still the artifact is not at `path`.
    ArtifactMissingAfterInstall { package_name: String, path: String },
}

/// Mathematical value of a [`ProvisionError`].
pub enum ProvisionErrorView {
    UnsupportedArchitecture,
    RegistryQueryFailed { message: Seq<char> },
    InstallFailed { message: Seq<char> },
    ArtifactMissingAfterInstall { package_name: Seq<char>, path: Seq<char> },
}

impl View for ProvisionError {
    type V = ProvisionErrorView;

    open spec fn view(&self) -> ProvisionErrorView {
        match self {
            ProvisionError::UnsupportedArchitecture => ProvisionErrorView::UnsupportedArchitecture,
            ProvisionError::RegistryQueryFailed { message } => {
                ProvisionErrorView::RegistryQueryFailed { message: message@ }
            },
            ProvisionError::InstallFailed { message } => ProvisionErrorView::InstallFailed {
                message: message@,
            },
            ProvisionError::ArtifactMissingAfterInstall {
                package_name,
                path,
            } => ProvisionErrorView::ArtifactMissingAfterInstall {
                package_name: package_name@,
                path: path@,
            },
        }
    }
}

/// The text shown to the user for each failure. Registry failures are passed
/// on word for word; a missing artifact names both the package and the path.
pub open spec fn spec_message(error: ProvisionErrorView) -> Seq<char> {
    match error {
        ProvisionErrorView::UnsupportedArchitecture => {
            "32-bit x86 architecture is not supported. Please use a 64-bit system."@
        },
        ProvisionErrorView::RegistryQueryFailed { message } => message,
        ProvisionErrorView::InstallFailed { message } => message,
        ProvisionErrorView::ArtifactMissingAfterInstall { package_name, path } => {
            "Failed to locate the language server after installation: package "@
                + package_name + " has no file at "@ + path
        },
    }
}

impl ProvisionError {
    /// Renders the failure for the user.
    pub fn message(&self) -> (text: String)
        ensures
            text@ == spec_message(self@),
    {
        match self {
            ProvisionError::UnsupportedArchitecture => String::from_str(
                "32-bit x86 architecture is not supported. Please use a 64-bit system.",
            ),
            ProvisionError::RegistryQueryFailed { message } => message.clone(),
            ProvisionError::InstallFailed { message } => message.clone(),
            ProvisionError::ArtifactMissingAfterInstall { package_name, path } => {
                let mut text = String::from_str(
                    "Failed to locate the language server after installation: package ",
                );
                text.append(package_name.as_str());
                text.append(" has no file at ");
                text.append(path.as_str());
                text
            },
        }
    }
}

impl PartialEq for ProvisionError {
    fn eq(&self, other: &Self) -> (equal: bool) {
        match (self, other) {
            (ProvisionError::UnsupportedArchitecture, ProvisionError::UnsupportedArchitecture) => {
                true
            },
            (
                ProvisionError::RegistryQueryFailed { message: mine },
                ProvisionError::RegistryQueryFailed { message: theirs },
            ) => *mine == *theirs,
            (
                ProvisionError::InstallFailed { message: mine },
                ProvisionError::InstallFailed { message: theirs },
            ) => *mine == *theirs,
            (
                ProvisionError::ArtifactMissingAfterInstall { package_name: name, path },
                ProvisionError::ArtifactMissingAfterInstall {
                    package_name: their_name,
                    path: their_path,
                },
            ) => *name == *their_name && *path == *their_path,
            _ => false,
        }
    }
}

impl Eq for ProvisionError {

}

impl vstd::std_specs::cmp::PartialEqSpecImpl for ProvisionError {
    open spec fn obeys_eq_spec() -> bool {
        true
    }

    open spec fn eq_spec(&self, other: &Self) -> bool {
        self@ == other@
    }
}

impl Clone for ProvisionError {
    fn clone(&self) -> (copy: Self)
        ensures
            copy@ == self@,
    {
        match self {
            ProvisionError::UnsupportedArchitecture => ProvisionError::UnsupportedArchitecture,
            ProvisionError::RegistryQueryFailed { message } => ProvisionError::RegistryQueryFailed {
                message: message.clone(),
            },
            ProvisionError::InstallFailed { message } => ProvisionError::InstallFailed {
                message: message.clone(),
            },
            ProvisionError::ArtifactMissingAfterInstall {
                package_name,
                path,
            } => ProvisionError::ArtifactMissingAfterInstall {
                package_name: package_name.clone(),
                path: path.clone(),
            },
        }
    }
}

} // verus!
