//! The daemon's IPC protocol: requests, responses, service descriptions, and
//! the length-prefixed framing of messages on the wire.
//!
//! A frame is a 4-byte little-endian length followed by the serialized
//! message; serializing the message itself happens outside this library.
use vstd::prelude::*;
use crate::text::owned;

verus! {

/// IPC request from client to daemon.
pub enum Request {
    /// Check if daemon is alive.
    Ping,
    /// Shutdown the daemon; `graceful` waits for services to stop.
    Shutdown { graceful: bool },
    /// Start a service, with an explicit configuration or the registered one.
    StartService { name: String, config: Option<ServiceConfig> },
    /// Stop a service; `force` kills instead of asking it to terminate.
    StopService { name: String, force: bool },
    /// Restart a service.
    RestartService { name: String },
    /// List all services.
    ListServices,
    /// Get the last `lines` log lines of a service, optionally streaming.
    ServiceLogs { name: String, lines: usize, follow: bool },
    /// Execute a command as the regular daemon user.
    Run { command: String, args: Vec<String> },
    /// Execute a command as the privileged daemon user, with a reason.
    SudoRun { command: String, args: Vec<String>, reason: String },
    /// Redirect a privileged port to a high port.
    BindPort { port: u16, target_port: u16 },
}

/// IPC response from daemon to client.
pub enum Response {
    /// Response to Ping.
    Pong { uptime_secs: u64, version: String },
    /// Generic success.
    Success,
    /// An error occurred.
    Error { message: String },
    /// List of services.
    Services { list: Vec<ServiceInfo> },
    /// Log lines.
    Logs { lines: Vec<String> },
    /// Single log line (for streaming).
    LogLine { line: String },
    /// End of stream.
    StreamEnd,
    /// Command execution result.
    CommandResult { exit_code: i32, stdout: Vec<u8>, stderr: Vec<u8> },
    /// Privileged command denied.
    SudoDenied { reason: String },
}

/// Service state.
#[derive(Clone, Copy, PartialEq, Eq, Structural, Debug)]
pub enum ServiceState {
    /// Service is starting up.
    Starting,
    /// Service is running.
    Running,
    /// Service is stopping.
    Stopping,
    /// Service is stopped.
    Stopped,
    /// Service failed (see its last error).
    Failed,
}

/// The human-readable name of a state.
pub open spec fn state_name(s: ServiceState) -> Seq<char> {
    match s {
        ServiceState::Starting => "starting"@,
        ServiceState::Running => "running"@,
        ServiceState::Stopping => "stopping"@,
        ServiceState::Stopped => "stopped"@,
        ServiceState::Failed => "failed"@,
    }
}

impl ServiceState {
    /// Whether the service is running.
    pub fn is_running(&self) -> (r: bool)
        ensures
            r == (*self == ServiceState::Running),
    {
        match self {
            ServiceState::Running => true,
            _ => false,
        }
    }

    /// Whether the service is stopped, cleanly or by failure.
    pub fn is_stopped(&self) -> (r: bool)
        ensures
            r == (*self == ServiceState::Stopped || *self == ServiceState::Failed),
    {
        match self {
            ServiceState::Stopped | ServiceState::Failed => true,
            _ => false,
        }
    }

    /// The human-readable state name.
    pub fn as_str(&self) -> (r: &'static str)
        ensures
            r@ == state_name(*self),
    {
        match self {
            ServiceState::Starting => "starting",
            ServiceState::Running => "running",
            ServiceState::Stopping => "stopping",
            ServiceState::Stopped => "stopped",
            ServiceState::Failed => "failed",
        }
    }
}

/// Service information as reported to clients.
pub struct ServiceInfo {
    /// Service name (e.g. "hive", "indexer").
    pub name: String,
    /// Current state.
    pub state: ServiceState,
    /// Process ID if running.
    pub pid: Option<u32>,
    /// Uptime in seconds if running.
    pub uptime_secs: Option<u64>,
    /// Number of restarts since the daemon started.
    pub restarts: u32,
    /// Last error message if failed.
    pub last_error: Option<String>,
}

impl ServiceInfo {
    /// Information of a stopped service that has never run.
    pub fn new(name: &str) -> (r: Self)
        ensures
            r.name@ == name@,
            r.state == ServiceState::Stopped,
            r.pid is None,
            r.uptime_secs is None,
            r.restarts == 0,
            r.last_error is None,
    {
        ServiceInfo {
            name: owned(name),
            state: ServiceState::Stopped,
            pid: None,
            uptime_secs: None,
            restarts: 0,
            last_error: None,
        }
    }
}

/// Configuration for starting a service.
pub struct ServiceConfig {
    /// Command to execute.
    pub command: String,
    /// Command arguments.
    pub args: Vec<String>,
    /// Environment variables, in the order they are set.
    pub env: Vec<(String, String)>,
    /// Working directory.
    pub working_dir: Option<String>,
    /// Restart on failure.
    pub restart_on_failure: bool,
    /// Maximum restart attempts.
    pub max_restarts: u32,
    /// Run as the privileged user.
    pub privileged: bool,
}

/// The abstract content of a service configuration.
pub struct ServiceConfigView {
    pub command: Seq<char>,
    pub args: Seq<Seq<char>>,
    pub env: Seq<(Seq<char>, Seq<char>)>,
    pub working_dir: Option<Seq<char>>,
    pub restart_on_failure: bool,
    pub max_restarts: u32,
    pub privileged: bool,
}

impl View for ServiceConfig {
    type V = ServiceConfigView;

    open spec fn view(&self) -> ServiceConfigView {
        ServiceConfigView {
            command: self.command@,
            args: self.args.deep_view(),
            env: self.env.deep_view(),
            working_dir: self.working_dir.deep_view(),
            restart_on_failure: self.restart_on_failure,
            max_restarts: self.max_restarts,
            privileged: self.privileged,
        }
    }
}

/// A copy of a list of strings.
pub fn copy_strings(v: &Vec<String>) -> (r: Vec<String>)
    ensures
        r.deep_view() == v.deep_view(),
{
    let mut r: Vec<String> = Vec::new();
    let mut i: usize = 0;
    while i < v.len()
        invariant
            i <= v@.len(),
            r.deep_view() =~= v.deep_view().take(i as int),
        decreases v@.len() - i,
    {
        let ghost prev = r.deep_view();
        r.push(v[i].clone());
        assert(r.deep_view() =~= prev.push(v@[i as int]@));
        i = i + 1;
    }
    assert(v.deep_view().take(v@.len() as int) =~= v.deep_view());
    r
}

/// A copy of an optional string.
pub fn copy_opt_string(s: &Option<String>) -> (r: Option<String>)
    ensures
        r.deep_view() == s.deep_view(),
{
    match s {
        Some(x) => Some(x.clone()),
        None => None,
    }
}

impl ServiceConfig {
    /// A configuration that runs `command` with no arguments, no extra
    /// environment, in the current directory, restarting up to three times
    /// on failure, unprivileged.
    pub fn new(command: &str) -> (r: Self)
        ensures
            r@ == (ServiceConfigView {
                command: command@,
                args: Seq::empty(),
                env: Seq::empty(),
                working_dir: None,
                restart_on_failure: true,
                max_restarts: 3,
                privileged: false,
            }),
    {
        let r = ServiceConfig {
            command: owned(command),
            args: Vec::new(),
            env: Vec::new(),
            working_dir: None,
            restart_on_failure: true,
            max_restarts: 3,
            privileged: false,
        };
        assert(r.args.deep_view() =~= Seq::<Seq<char>>::empty());
        assert(r.env.deep_view() =~= Seq::<(Seq<char>, Seq<char>)>::empty());
        r
    }

    /// The configuration with its arguments replaced by `args`.
    pub fn args(self, args: &[&str]) -> (r: Self)
        ensures
            r@ == (ServiceConfigView {
                args: args@.map_values(|a: &str| a@),
                ..self@
            }),
    {
        let mut v: Vec<String> = Vec::new();
        let mut i: usize = 0;
        while i < args.len()
            invariant
                i <= args@.len(),
                v.deep_view() =~= args@.map_values(|a: &str| a@).take(i as int),
            decreases args@.len() - i,
        {
            let ghost prev = v.deep_view();
            v.push(owned(args[i]));
            assert(v.deep_view() =~= prev.push(args@[i as int]@));
            i = i + 1;
        }
        assert(args@.map_values(|a: &str| a@).take(args@.len() as int) =~= args@.map_values(
            |a: &str| a@,
        ));
        ServiceConfig { args: v, ..self }
    }

    /// The configuration with one more environment variable, set after the others.
    pub fn env(self, key: &str, value: &str) -> (r: Self)
        ensures
            r@ == (ServiceConfigView { env: self@.env.push((key@, value@)), ..self@ }),
    {
        let mut s = self;
        s.env.push((owned(key), owned(value)));
        assert(s.env.deep_view() =~= self@.env.push((key@, value@)));
        s
    }

    /// The configuration with its working directory set to `dir`.
    pub fn working_dir(self, dir: &str) -> (r: Self)
        ensures
            r@ == (ServiceConfigView { working_dir: Some(dir@), ..self@ }),
    {
        ServiceConfig { working_dir: Some(owned(dir)), ..self }
    }

    /// The configuration with its restart-on-failure policy set.
    pub fn restart_on_failure(self, restart: bool) -> (r: Self)
        ensures
            r@ == (ServiceConfigView { restart_on_failure: restart, ..self@ }),
    {
        ServiceConfig { restart_on_failure: restart, ..self }
    }

    /// The configuration with its restart limit set.
    pub fn max_restarts(self, max: u32) -> (r: Self)
        ensures
            r@ == (ServiceConfigView { max_restarts: max, ..self@ }),
    {
        ServiceConfig { max_restarts: max, ..self }
    }

    /// The configuration with its privileged mode set.
    pub fn privileged(self, privileged: bool) -> (r: Self)
        ensures
            r@ == (ServiceConfigView { privileged: privileged, ..self@ }),
    {
        ServiceConfig { privileged: privileged, ..self }
    }

    /// A copy of the configuration.
    pub fn duplicate(&self) -> (r: Self)
        ensures
            r@ == self@,
    {
        let mut env: Vec<(String, String)> = Vec::new();
        let mut i: usize = 0;
        while i < self.env.len()
            invariant
                i <= self.env@.len(),
                env.deep_view() =~= self.env.deep_view().take(i as int),
            decreases self.env@.len() - i,
        {
            let (k, v) = &self.env[i];
            let ghost prev = env.deep_view();
            env.push((k.clone(), v.clone()));
            assert(env.deep_view() =~= prev.push(self.env@[i as int].deep_view()));
            i = i + 1;
        }
        assert(self.env.deep_view().take(self.env@.len() as int) =~= self.env.deep_view());
        ServiceConfig {
            command: self.command.clone(),
            args: copy_strings(&self.args),
            env: env,
            working_dir: copy_opt_string(&self.working_dir),
            restart_on_failure: self.restart_on_failure,
            max_restarts: self.max_restarts,
            privileged: self.privileged,
        }
    }
}

/// The four little-endian bytes of the low 32 bits of `n`.
pub open spec fn le_bytes(n: nat) -> Seq<u8> {
    seq![
        (n % 256) as u8,
        ((n / 256) % 256) as u8,
        ((n / 256 / 256) % 256) as u8,
        ((n / 256 / 256 / 256) % 256) as u8,
    ]
}

/// The number that four little-endian bytes spell.
pub open spec fn le_value(b: Seq<u8>) -> nat {
    (b[0] + 256 * b[1] + 65536 * b[2] + 16777216 * b[3]) as nat
}

/// The frame of a payload: its length modulo 2^32 in four little-endian
/// bytes, then the payload.
pub open spec fn frame_of(payload: Seq<u8>) -> Seq<u8> {
    le_bytes(payload.len() % 0x1_0000_0000) + payload
}

/// Message frame for the wire protocol: `[4-byte length (little-endian)][message bytes]`.
pub struct MessageFrame;

impl MessageFrame {
    /// The frame of an already serialized message.
    pub fn encode_payload(payload: &[u8]) -> (r: Vec<u8>)
        ensures
            r@ == frame_of(payload@),
    {
        let total: u64 = payload.len() as u64;
        let len: u32 = (total % 0x1_0000_0000) as u32;
        let mut r: Vec<u8> = Vec::new();
        r.push((len % 256) as u8);
        r.push(((len / 256) % 256) as u8);
        r.push(((len / 256 / 256) % 256) as u8);
        r.push(((len / 256 / 256 / 256) % 256) as u8);
        assert(r@ =~= le_bytes(payload@.len() % 0x1_0000_0000));
        let mut i: usize = 0;
        while i < payload.len()
            invariant
                i <= payload@.len(),
                r@ =~= le_bytes(payload@.len() % 0x1_0000_0000) + payload@.take(i as int),
            decreases payload@.len() - i,
        {
            r.push(payload[i]);
            i = i + 1;
        }
        assert(payload@.take(payload@.len() as int) =~= payload@);
        r
    }

    /// The length that a 4-byte little-endian prefix announces.
    pub fn read_length(buf: &[u8; 4]) -> (r: usize)
        ensures
            r == le_value(buf@),
    {
        let v: u32 = buf[0] as u32 + 256 * (buf[1] as u32) + 65536 * (buf[2] as u32) + 16777216 * (
        buf[3] as u32);
        v as usize
    }
}

/// Reading the length prefix of a frame gives back the payload's length,
/// and the bytes after the prefix are the payload, for every payload whose
/// length fits in 32 bits.
pub proof fn law_frame_roundtrip(payload: Seq<u8>)
    requires
        payload.len() <= 0xffff_ffff,
    ensures
        le_value(frame_of(payload).take(4)) == payload.len(),
        frame_of(payload).skip(4) == payload,
{
    let n = payload.len();
    let f = frame_of(payload);
    assert(n % 0x1_0000_0000 == n);
    assert(f.take(4) =~= le_bytes(n));
    assert(f.skip(4) =~= payload);
    let q1 = n / 256;
    let q2 = q1 / 256;
    let q3 = q2 / 256;
    assert(n == n % 256 + 256 * q1);
    assert(q1 == q1 % 256 + 256 * q2);
    assert(q2 == q2 % 256 + 256 * q3);
    assert(q3 < 256);
}

} // verus!
