//! The installable components of the ADI family: their metadata as the
//! project configuration gives it, and the registry of all of them.
//!
//! Downloading, writing and removing binaries stand outside this library.
use vstd::prelude::*;
use crate::component::{ComponentInfo, ComponentInfoView, InstallStatus};
use crate::protocol::copy_strings;
use crate::registry::ComponentRegistry;
use crate::project_config::{ProjectConfig, repository_pieces};
use crate::release_installer::ReleaseInstaller;
use crate::text::owned;

verus! {

/// A component that can be installed.
pub trait Component {
    /// The component's metadata.
    spec fn info_view(&self) -> ComponentInfoView;

    /// The component's metadata.
    fn info(&self) -> (r: &ComponentInfo)
        ensures
            r@ == self.info_view(),
    ;
}

/// A copy of component metadata.
pub fn copy_info(info: &ComponentInfo) -> (r: ComponentInfo)
    ensures
        r@ == info@,
{
    ComponentInfo {
        name: info.name.clone(),
        version: info.version.clone(),
        description: info.description.clone(),
        dependencies: copy_strings(&info.dependencies),
    }
}

/// The installation status of a component by whether its binary exists.
pub open spec fn status_of(binary_exists: bool) -> InstallStatus {
    if binary_exists {
        InstallStatus::Installed
    } else {
        InstallStatus::NotInstalled
    }
}

/// A component of the indexer family: its metadata and the name of its binary.
pub struct BaseIndexerComponent {
    pub info: ComponentInfo,
    pub binary_name: String,
}

impl BaseIndexerComponent {
    /// The component `component_name` of the project configuration
    /// (`components`, by name), installed as binary `binary_name`. The
    /// configuration must describe the component.
    pub fn new(component_name: &str, binary_name: String, components: &ComponentRegistry) -> (r: Self)
        requires
            components.wf(),
            components@.dom().contains(component_name@),
        ensures
            r.info@ == components@[component_name@],
            r.binary_name@ == binary_name@,
    {
        let info = match components.get(component_name) {
            Ok(c) => copy_info(c),
            Err(_) => {
                assert(false);
                ComponentInfo {
                    name: String::new(),
                    version: String::new(),
                    description: String::new(),
                    dependencies: Vec::new(),
                }
            },
        };
        BaseIndexerComponent { info, binary_name }
    }

    /// The installation status: installed when the binary exists.
    pub fn status(&self, binary_exists: bool) -> (r: InstallStatus)
        ensures
            r == status_of(binary_exists),
    {
        if binary_exists {
            InstallStatus::Installed
        } else {
            InstallStatus::NotInstalled
        }
    }

    /// Where the binary is installed, under the local data directory:
    /// `adi/bin/<binary>`.
    pub fn binary_location(&self) -> (r: Vec<String>)
        ensures
            r.deep_view() == seq!["adi"@, "bin"@, self.binary_name@],
    {
        let mut r: Vec<String> = Vec::new();
        r.push(owned("adi"));
        r.push(owned("bin"));
        r.push(self.binary_name.clone());
        assert(r.deep_view() =~= seq!["adi"@, "bin"@, self.binary_name@]);
        r
    }

    /// Where the installed version is recorded, under the local data
    /// directory: `adi/<component>/.version`; its directory is removed on
    /// uninstalling.
    pub fn version_location(&self) -> (r: Vec<String>)
        ensures
            r.deep_view() == seq!["adi"@, self.info.name@, ".version"@],
    {
        let mut r: Vec<String> = Vec::new();
        r.push(owned("adi"));
        r.push(self.info.name.clone());
        r.push(owned(".version"));
        assert(r.deep_view() =~= seq!["adi"@, self.info.name@, ".version"@]);
        r
    }

    /// Where the binary is installed from: the latest release tagged
    /// `indexer-...` of the project's repository.
    pub fn release_source(&self, config: &ProjectConfig) -> (r: ReleaseInstaller)
        requires
            repository_pieces(config.project.repository@).len() >= 2,
        ensures
            ({
                let p = repository_pieces(config.project.repository@);
                &&& r.repo_owner_spec() == p[p.len() - 2]
                &&& r.repo_name_spec() == p[p.len() - 1]
            }),
            r.binary_name_spec() == self.binary_name@,
            r.tag_prefix_spec() == Some("indexer-"@),
    {
        let (owner, repo) = config.parse_repository();
        ReleaseInstaller::new(owner.as_str(), repo.as_str(), self.binary_name.as_str()).with_tag_prefix("indexer-")
    }
}

impl Component for BaseIndexerComponent {
    open spec fn info_view(&self) -> ComponentInfoView {
        self.info@
    }

    fn info(&self) -> (r: &ComponentInfo) {
        &self.info
    }
}

/// A component of the tasks family: its metadata and the name of its binary.
pub struct BaseTasksComponent {
    pub info: ComponentInfo,
    pub binary_name: String,
}

impl BaseTasksComponent {
    /// The component `component_name` of the project configuration
    /// (`components`, by name), installed as binary `binary_name`. The
    /// configuration must describe the component.
    pub fn new(component_name: &str, binary_name: String, components: &ComponentRegistry) -> (r: Self)
        requires
            components.wf(),
            components@.dom().contains(component_name@),
        ensures
            r.info@ == components@[component_name@],
            r.binary_name@ == binary_name@,
    {
        let base = BaseIndexerComponent::new(component_name, binary_name, components);
        BaseTasksComponent { info: base.info, binary_name: base.binary_name }
    }

    /// The installation status: installed when the binary exists.
    pub fn status(&self, binary_exists: bool) -> (r: InstallStatus)
        ensures
            r == status_of(binary_exists),
    {
        if binary_exists {
            InstallStatus::Installed
        } else {
            InstallStatus::NotInstalled
        }
    }
}

impl Component for BaseTasksComponent {
    open spec fn info_view(&self) -> ComponentInfoView {
        self.info@
    }

    fn info(&self) -> (r: &ComponentInfo) {
        &self.info
    }
}

/// The HTTP server of the LLM code indexer (component `indexer-http`).
pub struct LlmCodeIndexerHttp {
    base: BaseIndexerComponent,
}

impl LlmCodeIndexerHttp {
    /// The component `indexer-http` of the project configuration, installed
    /// as binary `binary_name` (the configuration's indexer HTTP binary).
    pub fn new(components: &ComponentRegistry, binary_name: String) -> (r: Self)
        requires
            components.wf(),
            components@.dom().contains("indexer-http"@),
        ensures
            r.info_view() == components@["indexer-http"@],
            r.binary_name() == binary_name@,
    {
        LlmCodeIndexerHttp { base: BaseIndexerComponent::new("indexer-http", binary_name, components) }
    }

    /// The name of the component's binary.
    pub closed spec fn binary_name(&self) -> Seq<char> {
        self.base.binary_name@
    }

    /// The installation status: installed when the binary exists.
    pub fn status(&self, binary_exists: bool) -> (r: InstallStatus)
        ensures
            r == status_of(binary_exists),
    {
        self.base.status(binary_exists)
    }
}

impl Component for LlmCodeIndexerHttp {
    closed spec fn info_view(&self) -> ComponentInfoView {
        self.base.info@
    }

    fn info(&self) -> (r: &ComponentInfo) {
        &self.base.info
    }
}

/// The HTTP server of the task manager (component `tasks-http`).
pub struct TasksHttp {
    base: BaseTasksComponent,
}

impl TasksHttp {
    /// The component `tasks-http` of the project configuration, installed as
    /// binary `binary_name` (the configuration's tasks HTTP binary).
    pub fn new(components: &ComponentRegistry, binary_name: String) -> (r: Self)
        requires
            components.wf(),
            components@.dom().contains("tasks-http"@),
        ensures
            r.info_view() == components@["tasks-http"@],
            r.binary_name() == binary_name@,
    {
        TasksHttp { base: BaseTasksComponent::new("tasks-http", binary_name, components) }
    }

    /// The name of the component's binary.
    pub closed spec fn binary_name(&self) -> Seq<char> {
        self.base.binary_name@
    }

    /// The installation status: installed when the binary exists.
    pub fn status(&self, binary_exists: bool) -> (r: InstallStatus)
        ensures
            r == status_of(binary_exists),
    {
        self.base.status(binary_exists)
    }
}

impl Component for TasksHttp {
    closed spec fn info_view(&self) -> ComponentInfoView {
        self.base.info@
    }

    fn info(&self) -> (r: &ComponentInfo) {
        &self.base.info
    }
}

/// The registry of the given components, registered in order (a later
/// component replaces an earlier one of the same name).
pub open spec fn registry_of(infos: Seq<ComponentInfoView>) -> Map<Seq<char>, ComponentInfoView>
    decreases infos.len(),
{
    if infos.len() == 0 {
        Map::empty()
    } else {
        registry_of(infos.drop_last()).insert(infos.last().name, infos.last())
    }
}

/// The default registry: the components of the ADI family as the project
/// configuration describes them (the indexer's CLI, MCP and HTTP
/// components, then the task manager's), registered in the order given.
pub fn create_default_registry(components: &Vec<ComponentInfo>) -> (r: ComponentRegistry)
    ensures
        r.wf(),
        r@ == registry_of(components@.map_values(|c: ComponentInfo| c@)),
{
    let ghost infos = components@.map_values(|c: ComponentInfo| c@);
    let mut r = ComponentRegistry::new();
    let mut i: usize = 0;
    while i < components.len()
        invariant
            r.wf(),
            infos == components@.map_values(|c: ComponentInfo| c@),
            i <= components@.len(),
            r@ == registry_of(infos.take(i as int)),
        decreases components@.len() - i,
    {
        assert(infos.take(i + 1).drop_last() =~= infos.take(i as int));
        let c = copy_info(&components[i]);
        r.register(c);
        i = i + 1;
    }
    assert(infos.take(infos.len() as int) =~= infos);
    r
}

} // verus!
