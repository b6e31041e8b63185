//! The ways in which a registry operation fails.

use vstd::prelude::*;

verus! {

/// Why an operation on the registry did not succeed.
#[derive(Debug, PartialEq, Eq)]
pub enum RegistryError {
    /// The configuration file could not be read.
    ConfigUnreadable,
    /// The configuration file is not a table of tables.
    ConfigMalformed,
    /// The environments directory could not be listed; carries the system's message.
    DirectoryUnreadable { diagnostic: String },
    /// No directory exists on disk for the named environment, or the name
    /// is none that an environment can have.
    EnvironmentNotFound { name: String },
    /// The environment's directory holds no activation script.
    ActivationScriptMissing,
    /// The environment-creation tool exited with a failure; carries its diagnostic output.
    EnvironmentCreationFailed { diagnostic: String },
    /// The package installer exited with a failure; carries its diagnostic output.
    PackageInstallationFailed { diagnostic: String },
    /// The configuration could not be rendered as text.
    ConfigUnwritable,
    /// An action on the file system or a process launch failed; carries the system's message.
    Io { diagnostic: String },
}

/// The mathematical value of a [`RegistryError`].
pub enum RegistryErrorView {
    ConfigUnreadable,
    ConfigMalformed,
    DirectoryUnreadable { diagnostic: Seq<char> },
    EnvironmentNotFound { name: Seq<char> },
    ActivationScriptMissing,
    EnvironmentCreationFailed { diagnostic: Seq<char> },
    PackageInstallationFailed { diagnostic: Seq<char> },
    ConfigUnwritable,
    Io { diagnostic: Seq<char> },
}

impl View for RegistryError {
    type V = RegistryErrorView;

    open spec fn view(&self) -> RegistryErrorView {
        match self {
            RegistryError::ConfigUnreadable => RegistryErrorView::ConfigUnreadable,
            RegistryError::ConfigMalformed => RegistryErrorView::ConfigMalformed,
            RegistryError::DirectoryUnreadable { diagnostic } =>
                RegistryErrorView::DirectoryUnreadable { diagnostic: diagnostic@ },
            RegistryError::EnvironmentNotFound { name } => RegistryErrorView::EnvironmentNotFound {
                name: name@,
            },
            RegistryError::ActivationScriptMissing => RegistryErrorView::ActivationScriptMissing,
            RegistryError::EnvironmentCreationFailed { diagnostic } =>
                RegistryErrorView::EnvironmentCreationFailed { diagnostic: diagnostic@ },
            RegistryError::PackageInstallationFailed { diagnostic } =>
                RegistryErrorView::PackageInstallationFailed { diagnostic: diagnostic@ },
            RegistryError::ConfigUnwritable => RegistryErrorView::ConfigUnwritable,
            RegistryError::Io { diagnostic } => RegistryErrorView::Io { diagnostic: diagnostic@ },
        }
    }
}

} // verus!
