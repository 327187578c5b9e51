//! The daemon's bookkeeping of the services it manages: their states,
//! processes and restart counts, the built-in service configurations, and the
//! decisions taken when a service is started, stopped or found dead.
//!
//! Spawning, signalling and reaping processes stand outside this library:
//! the daemon asks here what to do, does it, and reports the outcome back.
use vstd::prelude::*;
use crate::protocol::{ServiceConfig, ServiceConfigView, ServiceInfo, ServiceState};
use crate::table::NamedTable;
use crate::text::owned;
use crate::toml_doc::{TomlValue, TomlValueView, member, parse_toml, str_member, toml_member, toml_of_text, toml_str_member};

verus! {

/// A spawned child process, as the daemon's logic sees it.
#[derive(Clone, Copy, PartialEq, Eq, Structural, Debug)]
pub struct ChildProcess {
    /// The process ID; absent once the process has been reaped.
    pub id: Option<u32>,
}

/// A managed service with its process and metadata.
pub struct ManagedService {
    /// Service configuration.
    pub config: ServiceConfig,
    /// Current state.
    pub state: ServiceState,
    /// Child process (if running).
    pub process: Option<ChildProcess>,
    /// Time when the service was started, in seconds of a monotonic clock.
    pub started_at: Option<u64>,
    /// Number of restarts since the daemon started.
    pub restarts: u32,
    /// Last error message.
    pub last_error: Option<String>,
}

/// The abstract content of a managed service.
pub struct ManagedServiceView {
    pub config: ServiceConfigView,
    pub state: ServiceState,
    pub process: Option<ChildProcess>,
    pub started_at: Option<u64>,
    pub restarts: u32,
    pub last_error: Option<Seq<char>>,
}

impl View for ManagedService {
    type V = ManagedServiceView;

    open spec fn view(&self) -> ManagedServiceView {
        ManagedServiceView {
            config: self.config@,
            state: self.state,
            process: self.process,
            started_at: self.started_at,
            restarts: self.restarts,
            last_error: self.last_error.deep_view(),
        }
    }
}

/// The process ID of a service, if it has a live process handle.
pub open spec fn pid_of(s: ManagedServiceView) -> Option<u32> {
    match s.process {
        Some(p) => p.id,
        None => None,
    }
}

/// The whole seconds a service has been up at time `now` (same clock as its
/// start time), if it was started; zero if the clock reads earlier.
pub open spec fn uptime_of(s: ManagedServiceView, now: u64) -> Option<u64> {
    match s.started_at {
        Some(t) => Some(if now >= t {
            (now - t) as u64
        } else {
            0
        }),
        None => None,
    }
}

/// `info` reports service `name` in state `s` at time `now`.
pub open spec fn info_matches(info: ServiceInfo, name: Seq<char>, s: ManagedServiceView, now: u64) -> bool {
    &&& info.name@ == name
    &&& info.state == s.state
    &&& info.pid == pid_of(s)
    &&& info.uptime_secs == uptime_of(s, now)
    &&& info.restarts == s.restarts
    &&& info.last_error.deep_view() == s.last_error
}

impl ManagedService {
    /// A stopped service with the given configuration that has never run.
    pub fn new(config: ServiceConfig) -> (r: Self)
        ensures
            r@ == (ManagedServiceView {
                config: config@,
                state: ServiceState::Stopped,
                process: None,
                started_at: None,
                restarts: 0,
                last_error: None,
            }),
    {
        ManagedService {
            config,
            state: ServiceState::Stopped,
            process: None,
            started_at: None,
            restarts: 0,
            last_error: None,
        }
    }

    /// The process ID, if the service has a live process.
    pub fn pid(&self) -> (r: Option<u32>)
        ensures
            r == pid_of(self@),
    {
        match self.process {
            Some(p) => p.id,
            None => None,
        }
    }

    /// The uptime in seconds at time `now`, if the service was started.
    pub fn uptime_secs(&self, now: u64) -> (r: Option<u64>)
        ensures
            r == uptime_of(self@, now),
    {
        match self.started_at {
            Some(t) => Some(
                if now >= t {
                    now - t
                } else {
                    0
                },
            ),
            None => None,
        }
    }

    /// The information reported to clients about this service as `name` at time `now`.
    pub fn to_info(&self, name: &str, now: u64) -> (r: ServiceInfo)
        ensures
            info_matches(r, name@, self@, now),
    {
        ServiceInfo {
            name: owned(name),
            state: self.state,
            pid: self.pid(),
            uptime_secs: self.uptime_secs(now),
            restarts: self.restarts,
            last_error: crate::protocol::copy_opt_string(&self.last_error),
        }
    }
}

/// Why a service operation was refused or failed.
pub enum ServiceError {
    /// The service is already running.
    AlreadyRunning { name: String },
    /// No configuration is known for the service.
    UnknownService { name: String },
    /// The process could not be spawned; the system's message.
    SpawnFailed { message: String },
}

/// The message of a service error.
pub open spec fn service_error_message(e: ServiceError) -> Seq<char> {
    match e {
        ServiceError::AlreadyRunning { name } => "Service '"@ + name@ + "' is already running"@,
        ServiceError::UnknownService { name } => "Unknown service: "@ + name@,
        ServiceError::SpawnFailed { message } => message@,
    }
}

impl ServiceError {
    /// The message of the error (see `service_error_message`).
    pub fn message(&self) -> (r: String)
        ensures
            r@ == service_error_message(*self),
    {
        match self {
            ServiceError::AlreadyRunning { name } => {
                let mut r = owned("Service '");
                r.append(name.as_str());
                r.append("' is already running");
                r
            },
            ServiceError::UnknownService { name } => {
                let mut r = owned("Unknown service: ");
                r.append(name.as_str());
                r
            },
            ServiceError::SpawnFailed { message } => message.clone(),
        }
    }
}

/// What stopping a service asks of its driver.
#[derive(Clone, Copy, PartialEq, Eq, Structural, Debug)]
pub enum StopAction {
    /// The service is stopped already; nothing to do.
    AlreadyStopped,
    /// The service has no process; it is simply marked stopped (`finish_stop`).
    NoProcess,
    /// Kill the process (SIGKILL), then `finish_stop`.
    Kill { pid: Option<u32> },
    /// Ask the process to terminate (SIGTERM), wait up to ten seconds and
    /// kill it if it is still there, then `finish_stop`.
    Terminate { pid: Option<u32> },
}

/// The configuration of a built-in service: `adi run <plugin> serve`, with
/// info-level logging, restarted up to three times on failure.
pub open spec fn builtin_config(plugin: Seq<char>) -> ServiceConfigView {
    ServiceConfigView {
        command: "adi"@,
        args: seq!["run"@, plugin, "serve"@],
        env: seq![("RUST_LOG"@, "info"@)],
        working_dir: None,
        restart_on_failure: true,
        max_restarts: 3,
        privileged: false,
    }
}

/// The built-in services: the hive, the indexer and the LLM proxy.
pub open spec fn builtin_services() -> Map<Seq<char>, ServiceConfigView> {
    map![
        "hive"@ => builtin_config("adi.hive"@),
        "indexer"@ => builtin_config("adi.indexer"@),
        "llm-proxy"@ => builtin_config("adi.llm-proxy"@),
    ]
}

/// The configuration of a built-in service (see `builtin_config`).
fn make_builtin_config(plugin: &str) -> (r: ServiceConfig)
    ensures
        r@ == builtin_config(plugin@),
{
    let args: [&str; 3] = ["run", plugin, "serve"];
    let r = ServiceConfig::new("adi").args(&args).env("RUST_LOG", "info").restart_on_failure(true).max_restarts(
        3,
    );
    assert(args@.map_values(|a: &str| a@) =~= seq!["run"@, plugin@, "serve"@]);
    assert(Seq::<(Seq<char>, Seq<char>)>::empty().push(("RUST_LOG"@, "info"@)) =~= seq![("RUST_LOG"@, "info"@)]);
    r
}

/// The registry of service configurations, by name.
pub struct ServiceRegistry {
    builtin: NamedTable<ServiceConfig>,
}

impl View for ServiceRegistry {
    type V = Map<Seq<char>, ServiceConfigView>;

    closed spec fn view(&self) -> Map<Seq<char>, ServiceConfigView> {
        self.builtin.map()
    }
}

impl ServiceRegistry {
    /// The registry is well formed.
    pub closed spec fn wf(self) -> bool {
        self.builtin.wf()
    }

    /// The registry of the built-in services.
    pub fn new() -> (r: Self)
        ensures
            r.wf(),
            r@ == builtin_services(),
    {
        let mut builtin: NamedTable<ServiceConfig> = NamedTable::new();
        proof {
            reveal_strlit("hive");
            reveal_strlit("indexer");
            reveal_strlit("llm-proxy");
            assert("hive"@.len() == 4 && "indexer"@.len() == 7 && "llm-proxy"@.len() == 9);
        }
        builtin.push_new(owned("hive"), make_builtin_config("adi.hive"));
        builtin.push_new(owned("indexer"), make_builtin_config("adi.indexer"));
        builtin.push_new(owned("llm-proxy"), make_builtin_config("adi.llm-proxy"));
        let r = ServiceRegistry { builtin };
        assert(r@ =~= builtin_services());
        r
    }

    /// The configuration registered under `name`, if any.
    pub fn get_config(&self, name: &str) -> (r: Option<ServiceConfig>)
        requires
            self.wf(),
        ensures
            match r {
                Some(c) => self@.dom().contains(name@) && c@ == self@[name@],
                None => !self@.dom().contains(name@),
            },
    {
        match self.builtin.find(name) {
            Some(i) => {
                let (_, c) = self.builtin.at(i);
                Some(c.duplicate())
            },
            None => None,
        }
    }

    /// Registers a configuration under `name`, replacing any there.
    pub fn register(&mut self, name: String, config: ServiceConfig)
        requires
            old(self).wf(),
        ensures
            final(self).wf(),
            final(self)@ == old(self)@.insert(name@, config@),
    {
        match self.builtin.find(name.as_str()) {
            Some(i) => {
                self.builtin.replace_at(i, config);
            },
            None => {
                self.builtin.push_new(name, config);
            },
        }
    }

    /// The names of all registered services, each once (in no particular order).
    pub fn list(&self) -> (r: Vec<String>)
        requires
            self.wf(),
        ensures
            r.deep_view().to_set() == self@.dom(),
            r.deep_view().no_duplicates(),
    {
        proof {
            self.builtin.lemma_names();
        }
        self.builtin.names_vec()
    }
}

/// A placeholder service, held briefly while an entry is being updated.
fn placeholder() -> (r: ManagedService)
    ensures
        r@ == (ManagedServiceView {
            config: ServiceConfigView {
                command: Seq::empty(),
                args: Seq::empty(),
                env: Seq::empty(),
                working_dir: None,
                restart_on_failure: true,
                max_restarts: 3,
                privileged: false,
            },
            state: ServiceState::Stopped,
            process: None,
            started_at: None,
            restarts: 0,
            last_error: None,
        }),
{
    proof {
        reveal_strlit("");
        assert(""@ =~= Seq::<char>::empty());
    }
    ManagedService::new(ServiceConfig::new(""))
}

/// Manages plugin services: their bookkeeping by name, and the registry of
/// known service configurations.
pub struct ServiceManager {
    services: NamedTable<ManagedService>,
    registry: ServiceRegistry,
}

impl ServiceManager {
    /// The manager is well formed.
    pub closed spec fn wf(self) -> bool {
        self.services.wf() && self.registry.wf()
    }

    /// The managed services, by name.
    pub closed spec fn services(self) -> Map<Seq<char>, ManagedServiceView> {
        self.services.map()
    }

    /// The managed services with their names, in listing order.
    pub closed spec fn entries(self) -> Seq<(Seq<char>, ManagedService)> {
        self.services.entries()
    }

    /// The known service configurations, by name.
    pub closed spec fn registry(self) -> Map<Seq<char>, ServiceConfigView> {
        self.registry@
    }

    /// The listing holds each managed service once, with its state.
    pub proof fn lemma_entries(self)
        requires
            self.wf(),
        ensures
            forall|i: int|
                0 <= i < self.entries().len() ==> self.services().dom().contains(#[trigger] self.entries()[i].0)
                    && self.services()[self.entries()[i].0] == self.entries()[i].1@,
            forall|k: Seq<char>|
                #[trigger] self.services().dom().contains(k) ==> exists|i: int|
                    0 <= i < self.entries().len() && #[trigger] self.entries()[i].0 == k,
            forall|i: int, j: int|
                0 <= i < self.entries().len() && 0 <= j < self.entries().len() && i != j ==> #[trigger] self.entries()[i].0
                    != #[trigger] self.entries()[j].0,
            self.entries().len() == self.services().dom().len(),
    {
        self.services.lemma_len();
        self.services.lemma_names();
        assert forall|i: int| 0 <= i < self.entries().len() implies self.services().dom().contains(
            #[trigger] self.entries()[i].0,
        ) && self.services()[self.entries()[i].0] == self.entries()[i].1@ by {
            self.services.lemma_at(i);
        }
        assert forall|k: Seq<char>| #[trigger] self.services().dom().contains(k) implies exists|i: int|
            0 <= i < self.entries().len() && #[trigger] self.entries()[i].0 == k by {
            let i = self.services.lemma_position_of(k);
            self.services.lemma_at(i);
            assert(self.entries()[i].0 == k);
        }
        assert forall|i: int, j: int|
            0 <= i < self.entries().len() && 0 <= j < self.entries().len() && i != j implies #[trigger] self.entries()[i].0
                != #[trigger] self.entries()[j].0 by {
            self.services.lemma_at(i);
            self.services.lemma_at(j);
        }
        self.services.names().unique_seq_to_set();
    }

    /// A manager with no services and the built-in configurations.
    pub fn new() -> (r: Self)
        ensures
            r.wf(),
            r.services() == Map::<Seq<char>, ManagedServiceView>::empty(),
            r.registry() == builtin_services(),
    {
        ServiceManager { services: NamedTable::new(), registry: ServiceRegistry::new() }
    }

    /// The first half of starting service `name`: a running service is
    /// refused; a service not managed yet is added, stopped, with `config`
    /// or else its registered configuration (unknown otherwise). The service
    /// is then starting with no error, and the configuration to spawn it with
    /// is returned (a managed service keeps its own configuration).
    pub fn begin_start(&mut self, name: &str, config: Option<ServiceConfig>) -> (r: Result<
        ServiceConfig,
        ServiceError,
    >)
        requires
            old(self).wf(),
        ensures
            final(self).wf(),
            final(self).registry() == old(self).registry(),
            old(self).services().dom().contains(name@) ==> {
                let s = old(self).services()[name@];
                if s.state == ServiceState::Running {
                    &&& r matches Err(ServiceError::AlreadyRunning { name: n }) && n@ == name@
                    &&& final(self).services() == old(self).services()
                } else {
                    &&& r matches Ok(c) && c@ == s.config
                    &&& final(self).services() == old(self).services().insert(
                        name@,
                        ManagedServiceView { state: ServiceState::Starting, last_error: None, ..s },
                    )
                }
            },
            !old(self).services().dom().contains(name@) ==> {
                let chosen = match config {
                    Some(c) => Some(c@),
                    None => if old(self).registry().dom().contains(name@) {
                        Some(old(self).registry()[name@])
                    } else {
                        None
                    },
                };
                match chosen {
                    Some(c) => {
                        &&& r matches Ok(rc) && rc@ == c
                        &&& final(self).services() == old(self).services().insert(
                            name@,
                            ManagedServiceView {
                                config: c,
                                state: ServiceState::Starting,
                                process: None,
                                started_at: None,
                                restarts: 0,
                                last_error: None,
                            },
                        )
                    },
                    None => {
                        &&& r matches Err(ServiceError::UnknownService { name: n }) && n@ == name@
                        &&& final(self).services() == old(self).services()
                    },
                }
            },
    {
        match self.services.find(name) {
            Some(i) => {
                let mut e = self.services.replace_at(i, placeholder());
                if e.state.is_running() {
                    self.services.replace_at(i, e);
                    return Err(ServiceError::AlreadyRunning { name: owned(name) });
                }
                e.state = ServiceState::Starting;
                e.last_error = None;
                let c = e.config.duplicate();
                self.services.replace_at(i, e);
                Ok(c)
            },
            None => {
                let c = match config {
                    Some(c) => c,
                    None => match self.registry.get_config(name) {
                        Some(c) => c,
                        None => {
                            return Err(ServiceError::UnknownService { name: owned(name) });
                        },
                    },
                };
                let spawn_with = c.duplicate();
                let mut e = ManagedService::new(c);
                e.state = ServiceState::Starting;
                self.services.push_new(owned(name), e);
                Ok(spawn_with)
            },
        }
    }

    /// The second half of starting service `name`, with the outcome of
    /// spawning its process: running, with the process and start time `now`;
    /// or failed, with the system's message, which is returned as the error.
    pub fn finish_start(&mut self, name: &str, spawned: Result<ChildProcess, String>, now: u64) -> (r: Result<
        (),
        ServiceError,
    >)
        requires
            old(self).wf(),
            old(self).services().dom().contains(name@),
        ensures
            final(self).wf(),
            final(self).registry() == old(self).registry(),
            ({
                let s = old(self).services()[name@];
                match spawned {
                    Ok(child) => r is Ok && final(self).services() == old(self).services().insert(
                        name@,
                        ManagedServiceView {
                            process: Some(child),
                            state: ServiceState::Running,
                            started_at: Some(now),
                            ..s
                        },
                    ),
                    Err(m) => (r matches Err(ServiceError::SpawnFailed { message }) && message@ == m@)
                        && final(self).services() == old(self).services().insert(
                        name@,
                        ManagedServiceView { state: ServiceState::Failed, last_error: Some(m@), ..s },
                    ),
                }
            }),
    {
        let i = match self.services.find(name) {
            Some(i) => i,
            None => {
                assert(false);
                return Ok(());
            },
        };
        let mut e = self.services.replace_at(i, placeholder());
        match spawned {
            Ok(child) => {
                e.process = Some(child);
                e.state = ServiceState::Running;
                e.started_at = Some(now);
                self.services.replace_at(i, e);
                Ok(())
            },
            Err(m) => {
                e.state = ServiceState::Failed;
                e.last_error = Some(m.clone());
                self.services.replace_at(i, e);
                Err(ServiceError::SpawnFailed { message: m })
            },
        }
    }

    /// The first half of stopping service `name` (`force` kills at once): an
    /// unknown service is refused, a stopped or failed one is left alone, and
    /// any other is marked stopping and its process is to be killed or asked
    /// to terminate.
    pub fn begin_stop(&mut self, name: &str, force: bool) -> (r: Result<StopAction, ServiceError>)
        requires
            old(self).wf(),
        ensures
            final(self).wf(),
            final(self).registry() == old(self).registry(),
            !old(self).services().dom().contains(name@) ==> (r matches Err(ServiceError::UnknownService { name: n })
                && n@ == name@) && final(self).services() == old(self).services(),
            old(self).services().dom().contains(name@) ==> {
                let s = old(self).services()[name@];
                if s.state == ServiceState::Stopped || s.state == ServiceState::Failed {
                    r == Ok::<StopAction, ServiceError>(StopAction::AlreadyStopped) && final(self).services()
                        == old(self).services()
                } else {
                    &&& final(self).services() == old(self).services().insert(
                        name@,
                        ManagedServiceView { state: ServiceState::Stopping, ..s },
                    )
                    &&& r == Ok::<StopAction, ServiceError>(
                        match s.process {
                            None => StopAction::NoProcess,
                            Some(p) => if force {
                                StopAction::Kill { pid: p.id }
                            } else {
                                StopAction::Terminate { pid: p.id }
                            },
                        },
                    )
                }
            },
    {
        let i = match self.services.find(name) {
            Some(i) => i,
            None => {
                return Err(ServiceError::UnknownService { name: owned(name) });
            },
        };
        let mut e = self.services.replace_at(i, placeholder());
        if e.state.is_stopped() {
            self.services.replace_at(i, e);
            return Ok(StopAction::AlreadyStopped);
        }
        e.state = ServiceState::Stopping;
        let action = match e.process {
            None => StopAction::NoProcess,
            Some(p) => if force {
                StopAction::Kill { pid: p.id }
            } else {
                StopAction::Terminate { pid: p.id }
            },
        };
        self.services.replace_at(i, e);
        Ok(action)
    }

    /// The second half of stopping service `name`: it is stopped, with no
    /// process and no start time.
    pub fn finish_stop(&mut self, name: &str)
        requires
            old(self).wf(),
        ensures
            final(self).wf(),
            final(self).registry() == old(self).registry(),
            old(self).services().dom().contains(name@) ==> final(self).services() == old(self).services().insert(
                name@,
                ManagedServiceView {
                    state: ServiceState::Stopped,
                    process: None,
                    started_at: None,
                    ..old(self).services()[name@]
                },
            ),
            !old(self).services().dom().contains(name@) ==> final(self).services() == old(self).services(),
    {
        if let Some(i) = self.services.find(name) {
            let mut e = self.services.replace_at(i, placeholder());
            e.state = ServiceState::Stopped;
            e.process = None;
            e.started_at = None;
            self.services.replace_at(i, e);
        }
    }

    /// The configuration of managed service `name`, if it is managed.
    pub fn config_of(&self, name: &str) -> (r: Option<ServiceConfig>)
        requires
            self.wf(),
        ensures
            match r {
                Some(c) => self.services().dom().contains(name@) && c@ == self.services()[name@].config,
                None => !self.services().dom().contains(name@),
            },
    {
        match self.services.find(name) {
            Some(i) => {
                let (_, e) = self.services.at(i);
                Some(e.config.duplicate())
            },
            None => None,
        }
    }

    /// Counts one restart of managed service `name` (a restart by hand).
    pub fn count_restart(&mut self, name: &str)
        requires
            old(self).wf(),
            old(self).services().dom().contains(name@) ==> old(self).services()[name@].restarts < u32::MAX,
        ensures
            final(self).wf(),
            final(self).registry() == old(self).registry(),
            old(self).services().dom().contains(name@) ==> final(self).services() == old(self).services().insert(
                name@,
                ManagedServiceView {
                    restarts: (old(self).services()[name@].restarts + 1) as u32,
                    ..old(self).services()[name@]
                },
            ),
            !old(self).services().dom().contains(name@) ==> final(self).services() == old(self).services(),
    {
        if let Some(i) = self.services.find(name) {
            let mut e = self.services.replace_at(i, placeholder());
            e.restarts = e.restarts + 1;
            self.services.replace_at(i, e);
        }
    }

    /// The information about every managed service at time `now`, in
    /// listing order.
    pub fn list(&self, now: u64) -> (r: Vec<ServiceInfo>)
        requires
            self.wf(),
        ensures
            r@.len() == self.entries().len(),
            forall|j: int|
                0 <= j < r@.len() ==> info_matches(#[trigger] r@[j], self.entries()[j].0, self.entries()[j].1@, now),
    {
        let n = self.services.len();
        proof {
            self.services.lemma_len();
        }
        let mut r: Vec<ServiceInfo> = Vec::new();
        let mut i: usize = 0;
        while i < n
            invariant
                self.wf(),
                n == self.services.len_spec(),
                n == self.entries().len(),
                i <= n,
                r@.len() == i,
                forall|j: int|
                    0 <= j < i ==> info_matches(#[trigger] r@[j], self.entries()[j].0, self.entries()[j].1@, now),
            decreases n - i,
        {
            let (name, e) = self.services.at(i);
            r.push(e.to_info(name.as_str(), now));
            i = i + 1;
        }
        r
    }

    /// The information about managed service `name` at time `now`, if it is managed.
    pub fn get(&self, name: &str, now: u64) -> (r: Option<ServiceInfo>)
        requires
            self.wf(),
        ensures
            match r {
                Some(info) => self.services().dom().contains(name@) && info_matches(
                    info,
                    name@,
                    self.services()[name@],
                    now,
                ),
                None => !self.services().dom().contains(name@),
            },
    {
        match self.services.find(name) {
            Some(i) => {
                let (_, e) = self.services.at(i);
                Some(e.to_info(name, now))
            },
            None => None,
        }
    }

    /// The names of the managed services, each once.
    pub fn names(&self) -> (r: Vec<String>)
        requires
            self.wf(),
        ensures
            r.deep_view().to_set() == self.services().dom(),
            r.deep_view().no_duplicates(),
    {
        proof {
            self.services.lemma_names();
        }
        self.services.names_vec()
    }

    /// The process ID of managed service `name`, if it is managed and has a
    /// live process.
    pub fn pid(&self, name: &str) -> (r: Option<u32>)
        requires
            self.wf(),
        ensures
            self.services().dom().contains(name@) ==> r == pid_of(self.services()[name@]),
            !self.services().dom().contains(name@) ==> r is None,
    {
        match self.services.find(name) {
            Some(i) => {
                let (_, e) = self.services.at(i);
                e.pid()
            },
            None => None,
        }
    }

    /// Marks managed service `name` failed with `error`, dropping its process.
    pub fn mark_failed(&mut self, name: &str, error: &str)
        requires
            old(self).wf(),
        ensures
            final(self).wf(),
            final(self).registry() == old(self).registry(),
            old(self).services().dom().contains(name@) ==> final(self).services() == old(self).services().insert(
                name@,
                ManagedServiceView {
                    state: ServiceState::Failed,
                    last_error: Some(error@),
                    process: None,
                    ..old(self).services()[name@]
                },
            ),
            !old(self).services().dom().contains(name@) ==> final(self).services() == old(self).services(),
    {
        if let Some(i) = self.services.find(name) {
            let mut e = self.services.replace_at(i, placeholder());
            e.state = ServiceState::Failed;
            e.last_error = Some(owned(error));
            e.process = None;
            self.services.replace_at(i, e);
        }
    }

    /// Whether managed service `name` may be restarted after a failure: its
    /// policy restarts it and it has restarted fewer times than its limit.
    pub fn should_restart(&self, name: &str) -> (r: bool)
        requires
            self.wf(),
        ensures
            r == (self.services().dom().contains(name@) && self.services()[name@].config.restart_on_failure
                && self.services()[name@].restarts < self.services()[name@].config.max_restarts),
    {
        match self.services.find(name) {
            Some(i) => {
                let (_, e) = self.services.at(i);
                e.config.restart_on_failure && e.restarts < e.config.max_restarts
            },
            None => false,
        }
    }

    /// Records that service `name` was respawned at time `now` as `child`:
    /// it is running again, with no error.
    pub fn record_respawn(&mut self, name: &str, child: ChildProcess, now: u64)
        requires
            old(self).wf(),
        ensures
            final(self).wf(),
            final(self).registry() == old(self).registry(),
            old(self).services().dom().contains(name@) ==> final(self).services() == old(self).services().insert(
                name@,
                ManagedServiceView {
                    process: Some(child),
                    state: ServiceState::Running,
                    started_at: Some(now),
                    last_error: None,
                    ..old(self).services()[name@]
                },
            ),
            !old(self).services().dom().contains(name@) ==> final(self).services() == old(self).services(),
    {
        if let Some(i) = self.services.find(name) {
            let mut e = self.services.replace_at(i, placeholder());
            e.process = Some(child);
            e.state = ServiceState::Running;
            e.started_at = Some(now);
            e.last_error = None;
            self.services.replace_at(i, e);
        }
    }

    /// Decides what happens to managed service `name` whose process died
    /// (see `after_death`); the configuration to respawn it with is returned
    /// when it is to be restarted. Nothing happens to an unknown service.
    pub fn handle_death(&mut self, name: &str, restart_on_failure: bool, max_restarts: u32) -> (r:
        Option<ServiceConfig>)
        requires
            old(self).wf(),
        ensures
            final(self).wf(),
            final(self).registry() == old(self).registry(),
            !old(self).services().dom().contains(name@) ==> r is None && final(self).services()
                == old(self).services(),
            old(self).services().dom().contains(name@) ==> {
                let s = old(self).services()[name@];
                &&& final(self).services() == old(self).services().insert(
                    name@,
                    after_death(s, restart_on_failure, max_restarts),
                )
                &&& restart_on_failure && s.restarts < max_restarts ==> r is Some && r->0@ == s.config
                &&& !(restart_on_failure && s.restarts < max_restarts) ==> r is None
            },
    {
        let i = match self.services.find(name) {
            Some(i) => i,
            None => {
                return None;
            },
        };
        let mut e = self.services.replace_at(i, placeholder());
        if restart_on_failure && e.restarts < max_restarts {
            e.state = ServiceState::Starting;
            e.restarts = e.restarts + 1;
            e.process = None;
            e.started_at = None;
            let c = e.config.duplicate();
            self.services.replace_at(i, e);
            Some(c)
        } else {
            e.state = ServiceState::Failed;
            e.last_error = Some(owned("Process died and max restarts exceeded"));
            e.process = None;
            self.services.replace_at(i, e);
            None
        }
    }

    /// The running services to check, with their process IDs and restart
    /// policies, in listing order.
    pub fn running_services(&self) -> (r: Vec<(String, Option<u32>, bool, u32)>)
        requires
            self.wf(),
        ensures
            r@.map_values(|t: (String, Option<u32>, bool, u32)| (t.0@, t.1, t.2, t.3)) == running_targets(
                self.entries(),
            ),
    {
        let n = self.services.len();
        proof {
            self.services.lemma_len();
        }
        let ghost e = self.entries();
        let mut r: Vec<(String, Option<u32>, bool, u32)> = Vec::new();
        let mut i: usize = 0;
        while i < n
            invariant
                self.wf(),
                e == self.entries(),
                n == e.len(),
                n == self.services.len_spec(),
                i <= n,
                r@.map_values(|t: (String, Option<u32>, bool, u32)| (t.0@, t.1, t.2, t.3)) == running_targets(
                    e.take(i as int),
                ),
            decreases n - i,
        {
            let (name, s) = self.services.at(i);
            assert(e.take(i + 1).drop_last() =~= e.take(i as int));
            assert(e.take(i + 1).last() == e[i as int]);
            if s.state == ServiceState::Running {
                let ghost prev = r@;
                let t = (name.clone(), s.pid(), s.config.restart_on_failure, s.config.max_restarts);
                r.push(t);
                assert(r@.map_values(|t: (String, Option<u32>, bool, u32)| (t.0@, t.1, t.2, t.3)) =~= prev.map_values(
                    |t: (String, Option<u32>, bool, u32)| (t.0@, t.1, t.2, t.3),
                ).push((e[i as int].0, pid_of(e[i as int].1@), e[i as int].1.config.restart_on_failure, e[i as int].1.config.max_restarts)));
            }
            i = i + 1;
        }
        assert(e.take(n as int) =~= e);
        r
    }
}

/// The running services among `entries`, with their process IDs and restart
/// policies, in order.
pub open spec fn running_targets(entries: Seq<(Seq<char>, ManagedService)>) -> Seq<(Seq<char>, Option<u32>, bool, u32)>
    decreases entries.len(),
{
    if entries.len() == 0 {
        Seq::empty()
    } else {
        let r = running_targets(entries.drop_last());
        let (name, s) = entries.last();
        if s.state == ServiceState::Running {
            r.push((name, pid_of(s@), s.config.restart_on_failure, s.config.max_restarts))
        } else {
            r
        }
    }
}

/// What becomes of a service whose process died: while its policy allows and
/// it has restarted fewer than `max_restarts` times, it is starting again with
/// one more restart counted and no process or start time; otherwise it has
/// failed, with the reason recorded.
pub open spec fn after_death(s: ManagedServiceView, restart_on_failure: bool, max_restarts: u32) -> ManagedServiceView {
    if restart_on_failure && s.restarts < max_restarts {
        ManagedServiceView {
            state: ServiceState::Starting,
            restarts: (s.restarts + 1) as u32,
            process: None,
            started_at: None,
            ..s
        }
    } else {
        ManagedServiceView {
            state: ServiceState::Failed,
            last_error: Some("Process died and max restarts exceeded"@),
            process: None,
            ..s
        }
    }
}

/// A service after its process died `k` times in a row, with no restart by
/// hand in between.
pub open spec fn after_deaths(s: ManagedServiceView, restart_on_failure: bool, max_restarts: u32, k: nat) -> ManagedServiceView
    decreases k,
{
    if k == 0 {
        s
    } else {
        after_death(after_deaths(s, restart_on_failure, max_restarts, (k - 1) as nat), restart_on_failure, max_restarts)
    }
}

/// Automatic restarts never take a service past its restart limit: from at
/// most `max_restarts` restarts, any number of deaths leaves it at most there.
pub proof fn law_restarts_bounded(s: ManagedServiceView, restart_on_failure: bool, max_restarts: u32, k: nat)
    requires
        s.restarts <= max_restarts,
    ensures
        after_deaths(s, restart_on_failure, max_restarts, k).restarts <= max_restarts,
    decreases k,
{
    if k > 0 {
        law_restarts_bounded(s, restart_on_failure, max_restarts, (k - 1) as nat);
    }
}

/// Each death of a restartable service within its limit uses one restart:
/// after `k` such deaths the service is starting with `k` more restarts.
pub proof fn law_deaths_count_restarts(s: ManagedServiceView, max_restarts: u32, k: nat)
    requires
        s.restarts + k <= max_restarts,
        k > 0,
    ensures
        after_deaths(s, true, max_restarts, k).restarts == s.restarts + k,
        after_deaths(s, true, max_restarts, k).state == ServiceState::Starting,
    decreases k,
{
    if k > 1 {
        law_deaths_count_restarts(s, max_restarts, (k - 1) as nat);
    } else {
        assert(after_deaths(s, true, max_restarts, 0) == s);
    }
}

/// A service that keeps dying fails for good: once it has died more times
/// than it had restarts left (or at all, when its policy does not restart
/// it), it is failed.
pub proof fn law_repeated_deaths_fail(s: ManagedServiceView, restart_on_failure: bool, max_restarts: u32, k: nat)
    requires
        s.restarts <= max_restarts,
        k > max_restarts - s.restarts || (!restart_on_failure && k > 0),
    ensures
        after_deaths(s, restart_on_failure, max_restarts, k).state == ServiceState::Failed,
    decreases k,
{
    let left = (max_restarts - s.restarts) as nat;
    if !restart_on_failure {
        if k > 1 {
            law_repeated_deaths_fail(s, restart_on_failure, max_restarts, (k - 1) as nat);
        }
    } else if k - 1 > left {
        law_repeated_deaths_fail(s, restart_on_failure, max_restarts, (k - 1) as nat);
    } else {
        if left > 0 {
            law_deaths_count_restarts(s, max_restarts, left);
        }
    }
}

/// The service table of a plugin manifest: `package.metadata.plugin.service`.
pub open spec fn manifest_service_table(manifest: TomlValueView) -> Option<TomlValueView> {
    match toml_member(manifest, "package"@) {
        Some(p) => match toml_member(p, "metadata"@) {
            Some(m) => match toml_member(m, "plugin"@) {
                Some(pl) => toml_member(pl, "service"@),
                None => None,
            },
            None => None,
        },
        None => None,
    }
}

/// The service a plugin manifest declares, as (name, command): none without
/// a service table; an error when the table has no string `name`; the
/// command is the string `command`, `serve` by default.
pub open spec fn plugin_service_of(manifest: TomlValueView) -> Result<Option<(Seq<char>, Seq<char>)>, Seq<char>> {
    match manifest_service_table(manifest) {
        None => Ok(None),
        Some(t) => match toml_str_member(t, "name"@) {
            None => Err("Service missing name"@),
            Some(n) => Ok(
                Some(
                    (
                        n,
                        match toml_str_member(t, "command"@) {
                            Some(c) => c,
                            None => "serve"@,
                        },
                    ),
                ),
            ),
        },
    }
}

/// The service a parsed plugin manifest declares (see `plugin_service_of`).
pub fn plugin_service(manifest: &TomlValue) -> (r: Result<Option<(String, String)>, String>)
    ensures
        match r {
            Ok(Some((n, c))) => plugin_service_of(manifest@) == Ok::<
                Option<(Seq<char>, Seq<char>)>,
                Seq<char>,
            >(Some((n@, c@))),
            Ok(None) => plugin_service_of(manifest@) == Ok::<Option<(Seq<char>, Seq<char>)>, Seq<char>>(None),
            Err(m) => plugin_service_of(manifest@) == Err::<Option<(Seq<char>, Seq<char>)>, Seq<char>>(m@),
        },
{
    proof {
        reveal_strlit("package");
        reveal_strlit("metadata");
        reveal_strlit("plugin");
        reveal_strlit("service");
        reveal_strlit("name");
        reveal_strlit("command");
    }
    let p = match member(manifest, "package") {
        Some(p) => p,
        None => return Ok(None),
    };
    let m = match member(p, "metadata") {
        Some(m) => m,
        None => return Ok(None),
    };
    let pl = match member(m, "plugin") {
        Some(pl) => pl,
        None => return Ok(None),
    };
    let t = match member(pl, "service") {
        Some(t) => t,
        None => return Ok(None),
    };
    match str_member(t, "name") {
        None => Err(owned("Service missing name")),
        Some(n) => {
            let c = match str_member(t, "command") {
                Some(c) => c,
                None => owned("serve"),
            };
            Ok(Some((n, c)))
        },
    }
}

/// The service a plugin manifest's text declares, read with the `toml`
/// crate: the parser's message when the text is not TOML, else as
/// `plugin_service_of` says.
pub fn plugin_service_of_manifest(text: &str) -> (r: Result<Option<(String, String)>, String>)
    ensures
        match toml_of_text(text@) {
            Err(m) => r matches Err(e) && e@ == m,
            Ok(v) => match r {
                Ok(Some((n, c))) => plugin_service_of(v) == Ok::<Option<(Seq<char>, Seq<char>)>, Seq<char>>(
                    Some((n@, c@)),
                ),
                Ok(None) => plugin_service_of(v) == Ok::<Option<(Seq<char>, Seq<char>)>, Seq<char>>(None),
                Err(m) => plugin_service_of(v) == Err::<Option<(Seq<char>, Seq<char>)>, Seq<char>>(m@),
            },
        },
{
    match parse_toml(text) {
        Ok(v) => plugin_service(&v),
        Err(m) => Err(m),
    }
}

} // verus!
