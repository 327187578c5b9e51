//! Errors of component and plugin installation.
use vstd::prelude::*;
use crate::text::owned;

verus! {

/// Errors of component and plugin installation. Errors raised by I/O,
/// serialization, the plugin registry or the plugin host carry their message.
pub enum InstallerError {
    ComponentNotFound(String),
    InstallationFailed { component: String, reason: String },
    DependencyMissing { component: String, dependency: String },
    ConfigError(String),
    Io(String),
    Serialization(String),
    AlreadyInstalled(String),
    UninstallationFailed { component: String, reason: String },
    Registry(String),
    PluginNotFound { id: String },
    PluginHost(String),
    Service(String),
    Other(String),
}

/// The message of an installer error.
pub open spec fn error_message(e: InstallerError) -> Seq<char> {
    match e {
        InstallerError::ComponentNotFound(n) => "Component '"@ + n@ + "' not found"@,
        InstallerError::InstallationFailed { component, reason } => "Installation failed for '"@
            + component@ + "': "@ + reason@,
        InstallerError::DependencyMissing { component, dependency } => "Dependency '"@ + dependency@
            + "' required by '"@ + component@ + "' is not installed"@,
        InstallerError::ConfigError(m) => "Configuration error: "@ + m@,
        InstallerError::Io(m) => "IO error: "@ + m@,
        InstallerError::Serialization(m) => "Serialization error: "@ + m@,
        InstallerError::AlreadyInstalled(n) => "Component '"@ + n@ + "' is already installed"@,
        InstallerError::UninstallationFailed { component, reason } => "Uninstallation failed for '"@
            + component@ + "': "@ + reason@,
        InstallerError::Registry(m) => "Registry error: "@ + m@,
        InstallerError::PluginNotFound { id } => "Plugin not found: "@ + id@,
        InstallerError::PluginHost(m) => "Plugin host error: "@ + m@,
        InstallerError::Service(m) => "Service error: "@ + m@,
        InstallerError::Other(m) => m@,
    }
}

/// `a` followed by `b`.
fn join2(a: &str, b: &str) -> (r: String)
    ensures
        r@ == a@ + b@,
{
    let mut r = owned(a);
    r.append(b);
    r
}

/// `a` followed by `b` and `c`.
fn join3(a: &str, b: &str, c: &str) -> (r: String)
    ensures
        r@ == a@ + b@ + c@,
{
    let mut r = owned(a);
    r.append(b);
    r.append(c);
    r
}

/// `a` followed by `b`, `c` and `d`.
fn join4(a: &str, b: &str, c: &str, d: &str) -> (r: String)
    ensures
        r@ == a@ + b@ + c@ + d@,
{
    let mut r = join3(a, b, c);
    r.append(d);
    r
}

impl InstallerError {
    /// The message of the error, as it is displayed to the user.
    pub fn message(&self) -> (r: String)
        ensures
            r@ == error_message(*self),
    {
        match self {
            InstallerError::ComponentNotFound(n) => join3("Component '", n.as_str(), "' not found"),
            InstallerError::InstallationFailed { component, reason } => join4(
                "Installation failed for '",
                component.as_str(),
                "': ",
                reason.as_str(),
            ),
            InstallerError::DependencyMissing { component, dependency } => {
                let mut r = join4(
                    "Dependency '",
                    dependency.as_str(),
                    "' required by '",
                    component.as_str(),
                );
                r.append("' is not installed");
                r
            },
            InstallerError::ConfigError(m) => join2("Configuration error: ", m.as_str()),
            InstallerError::Io(m) => join2("IO error: ", m.as_str()),
            InstallerError::Serialization(m) => join2("Serialization error: ", m.as_str()),
            InstallerError::AlreadyInstalled(n) => join3(
                "Component '",
                n.as_str(),
                "' is already installed",
            ),
            InstallerError::UninstallationFailed { component, reason } => join4(
                "Uninstallation failed for '",
                component.as_str(),
                "': ",
                reason.as_str(),
            ),
            InstallerError::Registry(m) => join2("Registry error: ", m.as_str()),
            InstallerError::PluginNotFound { id } => join2("Plugin not found: ", id.as_str()),
            InstallerError::PluginHost(m) => join2("Plugin host error: ", m.as_str()),
            InstallerError::Service(m) => join2("Service error: ", m.as_str()),
            InstallerError::Other(m) => m.clone(),
        }
    }
}

} // verus!
