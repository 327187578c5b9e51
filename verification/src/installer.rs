//! Installing components: the requirements a component must meet before it
//! is installed, the order of the steps of an installation, and what is
//! shown of each operation.
//!
//! Querying installation status, checking prerequisites and performing the
//! installation stand outside this library: an installation tells its
//! driver what to do next and is told the outcome.
use vstd::prelude::*;
use crate::component::InstallStatus;
use crate::error::{InstallerError, error_message};
use crate::registry::ComponentRegistry;
use crate::text::owned;

verus! {

/// Installs components of a registry.
pub struct Installer {
    registry: ComponentRegistry,
}

/// Whether dependency `dep` is satisfied: registered, and installed by `status`.
pub open spec fn dependency_met(registry: ComponentRegistry, dep: Seq<char>, status: InstallStatus) -> bool {
    registry@.dom().contains(dep) && status != InstallStatus::NotInstalled
}

impl Installer {
    /// An installer of the components of `registry`.
    pub fn new(registry: ComponentRegistry) -> (r: Self)
        requires
            registry.wf(),
        ensures
            r.registry_spec() == registry,
            r.wf(),
    {
        Installer { registry }
    }

    /// The installer is well formed.
    pub closed spec fn wf(self) -> bool {
        self.registry.wf()
    }

    /// The registry of components.
    pub closed spec fn registry_spec(self) -> ComponentRegistry {
        self.registry
    }

    /// The registry of components.
    pub fn registry(&self) -> (r: &ComponentRegistry)
        ensures
            *r == self.registry_spec(),
    {
        &self.registry
    }

    /// The requirements tested before installing `component_name`: the component must
    /// be registered, and each of its dependencies, in order, registered and
    /// installed (`statuses[i]` is the status of dependency `i`, read only for
    /// a registered dependency). The first dependency that fails is reported.
    pub fn check_dependencies(&self, component_name: &str, statuses: &Vec<InstallStatus>) -> (r: Result<
        (),
        InstallerError,
    >)
        requires
            self.wf(),
            self.registry_spec()@.dom().contains(component_name@) ==> statuses@.len()
                == self.registry_spec()@[component_name@].dependencies.len(),
        ensures
            !self.registry_spec()@.dom().contains(component_name@) ==> (r matches Err(
                InstallerError::ComponentNotFound(n),
            ) && n@ == component_name@),
            self.registry_spec()@.dom().contains(component_name@) ==> {
                let deps = self.registry_spec()@[component_name@].dependencies;
                match r {
                    Ok(()) => forall|i: int|
                        0 <= i < deps.len() ==> dependency_met(
                            self.registry_spec(),
                            #[trigger] deps[i],
                            statuses@[i],
                        ),
                    Err(e) => exists|i: int|
                        0 <= i < deps.len() && !dependency_met(self.registry_spec(), deps[i], statuses@[i])
                            && (forall|j: int|
                            0 <= j < i ==> dependency_met(
                                self.registry_spec(),
                                #[trigger] deps[j],
                                statuses@[j],
                            )) && (e matches InstallerError::DependencyMissing { component, dependency }
                            && component@ == component_name@ && dependency@ == deps[i]),
                }
            },
    {
        let info = match self.registry.get(component_name) {
            Ok(c) => c,
            Err(e) => {
                return Err(e);
            },
        };
        let ghost deps = info.dependencies.deep_view();
        let mut i: usize = 0;
        while i < info.dependencies.len()
            invariant
                self.wf(),
                self.registry_spec()@.dom().contains(component_name@),
                deps == info.dependencies.deep_view(),
                deps == self.registry_spec()@[component_name@].dependencies,
                statuses@.len() == deps.len(),
                i <= deps.len(),
                forall|j: int| 0 <= j < i ==> dependency_met(self.registry_spec(), #[trigger] deps[j], statuses@[j]),
            decreases deps.len() - i,
        {
            let dep = &info.dependencies[i];
            assert(deps[i as int] == dep@);
            if !self.registry.contains(dep.as_str()) || statuses[i] == InstallStatus::NotInstalled {
                return Err(
                    InstallerError::DependencyMissing {
                        component: owned(component_name),
                        dependency: dep.clone(),
                    },
                );
            }
            i = i + 1;
        }
        Ok(())
    }
}

/// An operation on a component that is shown while it runs.
#[derive(PartialEq, Eq, Structural, Debug, Clone, Copy)]
pub enum ComponentOp {
    Install,
    Uninstall,
    Update,
}

/// What is shown while `op` runs on the component named `name`.
pub open spec fn progress_text(op: ComponentOp, name: Seq<char>) -> Seq<char> {
    match op {
        ComponentOp::Install => "Installing "@ + name,
        ComponentOp::Uninstall => "Uninstalling "@ + name,
        ComponentOp::Update => "Updating "@ + name,
    }
}

/// What is shown when `op` on the component named `name` has ended with
/// `outcome`.
pub open spec fn finish_text(op: ComponentOp, name: Seq<char>, outcome: Result<(), InstallerError>) -> Seq<char> {
    match outcome {
        Ok(()) => name + match op {
            ComponentOp::Install => " installed successfully"@,
            ComponentOp::Uninstall => " uninstalled successfully"@,
            ComponentOp::Update => " updated successfully"@,
        },
        Err(e) => "Failed: "@ + error_message(e),
    }
}

/// What is shown while `op` runs (see `progress_text`).
pub fn progress_message(op: ComponentOp, name: &str) -> (r: String)
    ensures
        r@ == progress_text(op, name@),
{
    let mut r = match op {
        ComponentOp::Install => owned("Installing "),
        ComponentOp::Uninstall => owned("Uninstalling "),
        ComponentOp::Update => owned("Updating "),
    };
    r.append(name);
    r
}

/// What is shown when `op` has ended (see `finish_text`).
pub fn finish_message(op: ComponentOp, name: &str, outcome: &Result<(), InstallerError>) -> (r: String)
    ensures
        r@ == finish_text(op, name@, *outcome),
{
    match outcome {
        Ok(()) => {
            let mut r = owned(name);
            match op {
                ComponentOp::Install => r.append(" installed successfully"),
                ComponentOp::Uninstall => r.append(" uninstalled successfully"),
                ComponentOp::Update => r.append(" updated successfully"),
            }
            r
        },
        Err(e) => {
            let mut r = owned("Failed: ");
            let m = e.message();
            r.append(m.as_str());
            r
        },
    }
}

/// The stage of an installation.
#[derive(PartialEq, Eq, Structural, Debug, Clone, Copy)]
pub enum InstallStage {
    /// Waiting for the status of the current dependency.
    Checking,
    /// Waiting for the prerequisite check.
    Validating,
    /// Waiting for the installation itself.
    Installing,
    /// Over.
    Done,
}

/// What the driver of an installation has to do next.
pub enum InstallStep {
    /// Report the installation status of dependency `name`
    /// (`on_dependency_status`).
    CheckDependency { name: String },
    /// Report the component's prerequisite warnings (`on_prerequisites`).
    ValidatePrerequisites,
    /// Show each warning, then install the component while showing
    /// `progress` (`on_installed`).
    Install { warnings: Vec<String>, progress: String },
    /// The installation is over with `result`; `message` closes what was
    /// shown while installing (none when the installation did not start).
    Done { result: Result<(), InstallerError>, message: Option<String> },
}

/// An installation of one component, step by step: its dependencies are
/// checked in order (each must be registered and installed), then its
/// prerequisites, then it is installed; the first failure ends it.
pub struct InstallRun {
    component: String,
    display_name: String,
    deps: Vec<String>,
    registered: Vec<bool>,
    next: usize,
    stage: InstallStage,
    statuses: Ghost<Seq<InstallStatus>>,
}

impl InstallRun {
    /// The component being installed.
    pub closed spec fn component(self) -> Seq<char> {
        self.component@
    }

    /// The name the component is shown under.
    pub closed spec fn display_name(self) -> Seq<char> {
        self.display_name@
    }

    /// The component's dependencies, in order.
    pub closed spec fn deps(self) -> Seq<Seq<char>> {
        self.deps.deep_view()
    }

    /// Whether each dependency is registered.
    pub closed spec fn registered(self) -> Seq<bool> {
        self.registered@
    }

    /// How many dependencies have been found installed.
    pub closed spec fn checked(self) -> nat {
        self.next as nat
    }

    /// The statuses reported for the dependencies checked so far.
    pub closed spec fn statuses(self) -> Seq<InstallStatus> {
        self.statuses@
    }

    /// The stage of the installation.
    pub closed spec fn stage(self) -> InstallStage {
        self.stage
    }

    /// The installation is well formed: every dependency checked so far is
    /// registered and was reported installed; the current dependency is
    /// registered; past the dependencies, all of them were checked.
    pub closed spec fn wf(self) -> bool {
        &&& self.deps@.len() == self.registered@.len()
        &&& self.next <= self.deps@.len()
        &&& self.statuses@.len() == self.next
        &&& forall|i: int|
            0 <= i < self.next ==> self.registered@[i] && #[trigger] self.statuses@[i] != InstallStatus::NotInstalled
        &&& self.stage == InstallStage::Checking ==> self.next < self.deps@.len() && self.registered@[self.next as int]
        &&& (self.stage == InstallStage::Validating || self.stage == InstallStage::Installing) ==> self.next
            == self.deps@.len()
    }

    /// Moves past the dependencies checked so far: to the next one, which
    /// must be registered, or to the prerequisites.
    fn advance(&mut self) -> (r: InstallStep)
        requires
            old(self).deps@.len() == old(self).registered@.len(),
            old(self).next <= old(self).deps@.len(),
            old(self).statuses@.len() == old(self).next,
            forall|i: int|
                0 <= i < old(self).next ==> old(self).registered@[i] && #[trigger] old(self).statuses@[i]
                    != InstallStatus::NotInstalled,
        ensures
            final(self).wf(),
            next_install_step(*old(self), *final(self), r),
    {
        if self.next == self.deps.len() {
            self.stage = InstallStage::Validating;
            InstallStep::ValidatePrerequisites
        } else if !self.registered[self.next] {
            self.stage = InstallStage::Done;
            InstallStep::Done {
                result: Err(
                    InstallerError::DependencyMissing {
                        component: self.component.clone(),
                        dependency: self.deps[self.next].clone(),
                    },
                ),
                message: None,
            }
        } else {
            self.stage = InstallStage::Checking;
            InstallStep::CheckDependency { name: self.deps[self.next].clone() }
        }
    }

    /// Told the status of the current dependency: an error or a dependency
    /// not installed ends the installation; otherwise it moves on (see
    /// `next_install_step`).
    pub fn on_dependency_status(&mut self, status: Result<InstallStatus, InstallerError>) -> (r: InstallStep)
        requires
            old(self).wf(),
            old(self).stage() == InstallStage::Checking,
        ensures
            final(self).wf(),
            final(self).component() == old(self).component(),
            final(self).display_name() == old(self).display_name(),
            final(self).deps() == old(self).deps(),
            final(self).registered() == old(self).registered(),
            match status {
                Err(e) => final(self).stage() == InstallStage::Done && (r matches InstallStep::Done {
                    result: Err(x),
                    message: None,
                } && x == e),
                Ok(s) => if s == InstallStatus::NotInstalled {
                    final(self).stage() == InstallStage::Done && (r matches InstallStep::Done {
                        result: Err(InstallerError::DependencyMissing { component, dependency }),
                        message: None,
                    } && component@ == old(self).component() && dependency@ == old(self).deps()[old(
                        self,
                    ).checked() as int])
                } else {
                    final(self).statuses() == old(self).statuses().push(s) && final(self).checked()
                        == old(self).checked() + 1 && next_install_step(*final(self), *final(self), r)
                },
            },
    {
        match status {
            Err(e) => {
                self.stage = InstallStage::Done;
                InstallStep::Done { result: Err(e), message: None }
            },
            Ok(s) => {
                if s == InstallStatus::NotInstalled {
                    self.stage = InstallStage::Done;
                    InstallStep::Done {
                        result: Err(
                            InstallerError::DependencyMissing {
                                component: self.component.clone(),
                                dependency: self.deps[self.next].clone(),
                            },
                        ),
                        message: None,
                    }
                } else {
                    proof {
                        self.statuses = Ghost(self.statuses@.push(s));
                    }
                    let n = self.deps.len();
                    assert(self.next < n);
                    self.next = self.next + 1;
                    let ghost mid = *self;
                    let r = self.advance();
                    assert(next_install_step(mid, *self, r));
                    r
                }
            },
        }
    }

    /// Told the prerequisite check's outcome: an error ends the
    /// installation; otherwise the component is to be installed, with the
    /// warnings shown first.
    pub fn on_prerequisites(&mut self, warnings: Result<Vec<String>, InstallerError>) -> (r: InstallStep)
        requires
            old(self).wf(),
            old(self).stage() == InstallStage::Validating,
        ensures
            final(self).wf(),
            final(self).component() == old(self).component(),
            final(self).display_name() == old(self).display_name(),
            final(self).statuses() == old(self).statuses(),
            final(self).checked() == old(self).checked(),
            match warnings {
                Err(e) => final(self).stage() == InstallStage::Done && (r matches InstallStep::Done {
                    result: Err(x),
                    message: None,
                } && x == e),
                Ok(w) => final(self).stage() == InstallStage::Installing && (r matches InstallStep::Install {
                    warnings: w2,
                    progress,
                } && w2@ == w@ && progress@ == progress_text(ComponentOp::Install, old(self).display_name())),
            },
    {
        match warnings {
            Err(e) => {
                self.stage = InstallStage::Done;
                InstallStep::Done { result: Err(e), message: None }
            },
            Ok(w) => {
                self.stage = InstallStage::Installing;
                let progress = progress_message(ComponentOp::Install, self.display_name.as_str());
                InstallStep::Install { warnings: w, progress }
            },
        }
    }

    /// Told the installation's outcome: the installation is over with it,
    /// and the message that closes the progress display.
    pub fn on_installed(&mut self, outcome: Result<(), InstallerError>) -> (r: InstallStep)
        requires
            old(self).wf(),
            old(self).stage() == InstallStage::Installing,
        ensures
            final(self).wf(),
            final(self).stage() == InstallStage::Done,
            final(self).statuses() == old(self).statuses(),
            final(self).checked() == old(self).checked(),
            r matches InstallStep::Done { result, message: Some(m) } && result == outcome && m@ == finish_text(
                ComponentOp::Install,
                old(self).display_name(),
                outcome,
            ),
    {
        self.stage = InstallStage::Done;
        let message = finish_message(ComponentOp::Install, self.display_name.as_str(), &outcome);
        InstallStep::Done { result: outcome, message: Some(message) }
    }
}

/// The step after the dependencies checked in `before`: the prerequisites
/// when all were checked; the end with `DependencyMissing` when the next one
/// is not registered; else the next one's status is asked for. Nothing else
/// of the installation changes.
pub open spec fn next_install_step(before: InstallRun, after: InstallRun, r: InstallStep) -> bool {
    let k = before.checked() as int;
    &&& after.component() == before.component()
    &&& after.display_name() == before.display_name()
    &&& after.deps() == before.deps()
    &&& after.registered() == before.registered()
    &&& after.checked() == before.checked()
    &&& after.statuses() == before.statuses()
    &&& if k == before.deps().len() {
        after.stage() == InstallStage::Validating && r is ValidatePrerequisites
    } else if !before.registered()[k] {
        after.stage() == InstallStage::Done && (r matches InstallStep::Done {
            result: Err(InstallerError::DependencyMissing { component, dependency }),
            message: None,
        } && component@ == before.component() && dependency@ == before.deps()[k])
    } else {
        after.stage() == InstallStage::Checking && (r matches InstallStep::CheckDependency { name } && name@
            == before.deps()[k])
    }
}

/// Once an installation reaches its prerequisites or the installation
/// itself, every dependency of the component is registered and was reported
/// installed: exactly what `check_dependencies` accepts.
pub proof fn law_install_needs_dependencies(run: InstallRun)
    requires
        run.wf(),
        run.stage() == InstallStage::Validating || run.stage() == InstallStage::Installing,
    ensures
        run.statuses().len() == run.deps().len(),
        forall|i: int|
            0 <= i < run.deps().len() ==> run.registered()[i] && #[trigger] run.statuses()[i]
                != InstallStatus::NotInstalled,
{
    assert(run.deps().len() == run.deps@.len());
}

impl Installer {
    /// Starts installing `component_name`: a component not registered ends
    /// it with `ComponentNotFound`; otherwise its dependencies are checked
    /// from the first (see `next_install_step`), each registered or not as
    /// the registry says.
    pub fn start_install(&self, component_name: &str) -> (r: (InstallRun, InstallStep))
        requires
            self.wf(),
        ensures
            r.0.wf(),
            !self.registry_spec()@.dom().contains(component_name@) ==> r.0.stage() == InstallStage::Done
                && (r.1 matches InstallStep::Done { result: Err(InstallerError::ComponentNotFound(n)), message: None }
                && n@ == component_name@),
            self.registry_spec()@.dom().contains(component_name@) ==> {
                let info = self.registry_spec()@[component_name@];
                &&& r.0.component() == component_name@
                &&& r.0.display_name() == info.name
                &&& r.0.deps() == info.dependencies
                &&& r.0.registered().len() == info.dependencies.len()
                &&& forall|i: int|
                    0 <= i < info.dependencies.len() ==> #[trigger] r.0.registered()[i]
                        == self.registry_spec()@.dom().contains(info.dependencies[i])
                &&& r.0.checked() == 0
                &&& r.0.statuses() == Seq::<InstallStatus>::empty()
                &&& next_install_step(r.0, r.0, r.1)
            },
    {
        match self.registry.get(component_name) {
            Err(e) => {
                let run = InstallRun {
                    component: owned(component_name),
                    display_name: owned(component_name),
                    deps: Vec::new(),
                    registered: Vec::new(),
                    next: 0,
                    stage: InstallStage::Done,
                    statuses: Ghost(Seq::empty()),
                };
                (run, InstallStep::Done { result: Err(e), message: None })
            },
            Ok(info) => {
                let ghost deps = info.dependencies.deep_view();
                let mut registered: Vec<bool> = Vec::new();
                let mut i: usize = 0;
                while i < info.dependencies.len()
                    invariant
                        self.wf(),
                        i <= info.dependencies@.len(),
                        deps == info.dependencies.deep_view(),
                        registered@.len() == i,
                        forall|j: int|
                            0 <= j < i ==> #[trigger] registered@[j] == self.registry_spec()@.dom().contains(deps[j]),
                    decreases info.dependencies@.len() - i,
                {
                    assert(deps[i as int] == info.dependencies@[i as int]@);
                    registered.push(self.registry.contains(info.dependencies[i].as_str()));
                    i = i + 1;
                }
                let mut run = InstallRun {
                    component: owned(component_name),
                    display_name: info.name.clone(),
                    deps: crate::protocol::copy_strings(&info.dependencies),
                    registered,
                    next: 0,
                    stage: InstallStage::Done,
                    statuses: Ghost(Seq::empty()),
                };
                let ghost start = run;
                let step = run.advance();
                assert(next_install_step(start, run, step));
                (run, step)
            },
        }
    }

    /// The start of uninstalling or updating `component_name`: what to show
    /// while it runs, or `ComponentNotFound` when it is not registered.
    pub fn begin(&self, op: ComponentOp, component_name: &str) -> (r: Result<String, InstallerError>)
        requires
            self.wf(),
        ensures
            match r {
                Ok(p) => self.registry_spec()@.dom().contains(component_name@) && p@ == progress_text(
                    op,
                    self.registry_spec()@[component_name@].name,
                ),
                Err(e) => !self.registry_spec()@.dom().contains(component_name@) && (e matches InstallerError::ComponentNotFound(n)
                    && n@ == component_name@),
            },
    {
        match self.registry.get(component_name) {
            Ok(info) => Ok(progress_message(op, info.name.as_str())),
            Err(e) => Err(e),
        }
    }
}

/// What a component's default update does next: it uninstalls, then
/// installs.
pub enum UpdateStep {
    /// Install the component again.
    Install,
    /// The update is over with this outcome.
    Done(Result<(), InstallerError>),
}

/// The default update after the component was uninstalled with `outcome`:
/// a failure ends it, else the component is installed again (the update's
/// outcome is then the installation's).
pub fn update_after_uninstall(outcome: Result<(), InstallerError>) -> (r: UpdateStep)
    ensures
        match outcome {
            Ok(()) => r is Install,
            Err(e) => r matches UpdateStep::Done(Err(x)) && x == e,
        },
{
    match outcome {
        Ok(()) => UpdateStep::Install,
        Err(e) => UpdateStep::Done(Err(e)),
    }
}

} // verus!
