//! Descriptions of installable components and their installation status.
use vstd::prelude::*;

verus! {

/// Component metadata.
pub struct ComponentInfo {
    pub name: String,
    pub version: String,
    pub description: String,
    pub dependencies: Vec<String>,
}

/// The abstract content of component metadata.
pub struct ComponentInfoView {
    pub name: Seq<char>,
    pub version: Seq<char>,
    pub description: Seq<char>,
    pub dependencies: Seq<Seq<char>>,
}

impl View for ComponentInfo {
    type V = ComponentInfoView;

    open spec fn view(&self) -> ComponentInfoView {
        ComponentInfoView {
            name: self.name@,
            version: self.version@,
            description: self.description@,
            dependencies: self.dependencies.deep_view(),
        }
    }
}

/// Options of an installation.
pub struct InstallConfig {
    pub install_path: Option<String>,
    pub options: Vec<(String, String)>,
}

/// Installation status of a component.
#[derive(Clone, Copy, PartialEq, Eq, Structural, Debug)]
pub enum InstallStatus {
    NotInstalled,
    Installed,
    UpdateAvailable,
}

} // verus!
