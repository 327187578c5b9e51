//! Health monitoring of managed services: the summary of their states, and
//! the decision taken when a running service's process is found dead.
//!
//! Probing whether a process is alive and respawning it stand outside this
//! library; the monitor hands their results to the functions here.
use vstd::prelude::*;
use crate::protocol::{ServiceConfig, ServiceState};
use crate::services::{ManagedService, ManagedServiceView, ServiceManager, after_death};

verus! {

/// The number of entries in the given state.
pub open spec fn count_state(entries: Seq<(Seq<char>, ManagedService)>, st: ServiceState) -> nat
    decreases entries.len(),
{
    if entries.len() == 0 {
        0
    } else {
        count_state(entries.drop_last(), st) + if entries.last().1.state == st {
            1nat
        } else {
            0nat
        }
    }
}

/// A service needs attention when it failed or has restarted twice or more.
pub open spec fn needs_attention(s: ManagedServiceView) -> bool {
    s.state == ServiceState::Failed || s.restarts >= 2
}

/// The names of the entries that need attention, in order.
pub open spec fn unhealthy_names(entries: Seq<(Seq<char>, ManagedService)>) -> Seq<Seq<char>>
    decreases entries.len(),
{
    if entries.len() == 0 {
        Seq::empty()
    } else {
        let r = unhealthy_names(entries.drop_last());
        if needs_attention(entries.last().1@) {
            r.push(entries.last().0)
        } else {
            r
        }
    }
}

/// Health status summary.
pub struct HealthStatus {
    /// Total number of services.
    pub total: usize,
    /// Number of running services.
    pub running: usize,
    /// Number of stopped services.
    pub stopped: usize,
    /// Number of failed services.
    pub failed: usize,
    /// Services that need attention (failed or restarting frequently).
    pub unhealthy: Vec<String>,
}

impl HealthStatus {
    /// The summary of the services of a manager: how many there are, how many
    /// run, are stopped or failed, and which need attention, in listing order.
    pub fn from_services(services: &ServiceManager) -> (r: Self)
        requires
            services.wf(),
        ensures
            r.total == services.entries().len(),
            r.running == count_state(services.entries(), ServiceState::Running),
            r.stopped == count_state(services.entries(), ServiceState::Stopped),
            r.failed == count_state(services.entries(), ServiceState::Failed),
            r.unhealthy.deep_view() == unhealthy_names(services.entries()),
    {
        let infos = services.list(0);
        let names = services.names();
        let ghost e = services.entries();
        proof {
            services.lemma_entries();
        }
        let mut running: usize = 0;
        let mut stopped: usize = 0;
        let mut failed: usize = 0;
        let mut unhealthy: Vec<String> = Vec::new();
        let mut i: usize = 0;
        while i < infos.len()
            invariant
                e == services.entries(),
                infos@.len() == e.len(),
                forall|j: int|
                    0 <= j < infos@.len() ==> crate::services::info_matches(
                        #[trigger] infos@[j],
                        e[j].0,
                        e[j].1@,
                        0,
                    ),
                i <= infos@.len(),
                running == count_state(e.take(i as int), ServiceState::Running),
                stopped == count_state(e.take(i as int), ServiceState::Stopped),
                failed == count_state(e.take(i as int), ServiceState::Failed),
                running <= i && stopped <= i && failed <= i,
                unhealthy.deep_view() == unhealthy_names(e.take(i as int)),
            decreases infos@.len() - i,
        {
            let info = &infos[i];
            assert(e.take(i + 1).drop_last() =~= e.take(i as int));
            assert(e.take(i + 1).last() == e[i as int]);
            assert(crate::services::info_matches(infos@[i as int], e[i as int].0, e[i as int].1@, 0));
            match info.state {
                ServiceState::Running => {
                    running = running + 1;
                },
                ServiceState::Stopped => {
                    stopped = stopped + 1;
                },
                ServiceState::Failed => {
                    failed = failed + 1;
                },
                _ => {},
            }
            if info.state == ServiceState::Failed || info.restarts >= 2 {
                let ghost prev = unhealthy.deep_view();
                unhealthy.push(info.name.clone());
                assert(unhealthy.deep_view() =~= prev.push(e[i as int].0));
            }
            i = i + 1;
        }
        assert(e.take(e.len() as int) =~= e);
        HealthStatus { total: infos.len(), running, stopped, failed, unhealthy }
    }

    /// Whether all services are healthy: none failed and none needs attention.
    pub fn is_healthy(&self) -> (r: bool)
        ensures
            r == (self.failed == 0 && self.unhealthy@.len() == 0),
    {
        self.failed == 0 && self.unhealthy.len() == 0
    }
}

/// The counting of a state is zero exactly when no entry has it.
proof fn lemma_count_zero(e: Seq<(Seq<char>, ManagedService)>, st: ServiceState)
    ensures
        (count_state(e, st) == 0) <==> forall|i: int| 0 <= i < e.len() ==> #[trigger] e[i].1.state != st,
    decreases e.len(),
{
    if e.len() > 0 {
        let t = e.drop_last();
        lemma_count_zero(t, st);
        if count_state(e, st) == 0 {
            assert forall|i: int| 0 <= i < e.len() implies #[trigger] e[i].1.state != st by {
                if i < e.len() - 1 {
                    assert(t[i] == e[i]);
                }
            }
        }
        if forall|i: int| 0 <= i < e.len() ==> #[trigger] e[i].1.state != st {
            assert forall|i: int| 0 <= i < t.len() implies #[trigger] t[i].1.state != st by {
                assert(t[i] == e[i]);
            }
            assert(e.last() == e[e.len() - 1]);
        }
    }
}

/// No name needs attention exactly when no entry needs attention.
proof fn lemma_unhealthy_empty(e: Seq<(Seq<char>, ManagedService)>)
    ensures
        (unhealthy_names(e).len() == 0) <==> forall|i: int| 0 <= i < e.len() ==> !needs_attention(
            #[trigger] e[i].1@,
        ),
    decreases e.len(),
{
    if e.len() > 0 {
        let t = e.drop_last();
        lemma_unhealthy_empty(t);
        if unhealthy_names(e).len() == 0 {
            assert forall|i: int| 0 <= i < e.len() implies !needs_attention(#[trigger] e[i].1@) by {
                if i < e.len() - 1 {
                    assert(t[i] == e[i]);
                }
            }
        }
        if forall|i: int| 0 <= i < e.len() ==> !needs_attention(#[trigger] e[i].1@) {
            assert forall|i: int| 0 <= i < t.len() implies !needs_attention(#[trigger] t[i].1@) by {
                assert(t[i] == e[i]);
            }
            assert(e.last() == e[e.len() - 1]);
        }
    }
}

/// A summary of a manager's services (`HealthStatus::from_services`) reports
/// all healthy exactly when no managed service has failed and none has
/// restarted twice or more.
pub proof fn law_healthy_iff_no_failures(m: ServiceManager)
    requires
        m.wf(),
    ensures
        (count_state(m.entries(), ServiceState::Failed) == 0 && unhealthy_names(m.entries()).len() == 0)
            <==> forall|k: Seq<char>|
            #[trigger] m.services().dom().contains(k) ==> m.services()[k].state != ServiceState::Failed
                && m.services()[k].restarts < 2,
{
    let e = m.entries();
    m.lemma_entries();
    lemma_count_zero(e, ServiceState::Failed);
    lemma_unhealthy_empty(e);
    if count_state(e, ServiceState::Failed) == 0 && unhealthy_names(e).len() == 0 {
        assert forall|k: Seq<char>| #[trigger] m.services().dom().contains(k) implies m.services()[k].state
            != ServiceState::Failed && m.services()[k].restarts < 2 by {
            let i = choose|i: int| 0 <= i < e.len() && #[trigger] e[i].0 == k;
            assert(!needs_attention(e[i].1@));
        }
    }
    if forall|k: Seq<char>|
        #[trigger] m.services().dom().contains(k) ==> m.services()[k].state != ServiceState::Failed
            && m.services()[k].restarts < 2 {
        assert forall|i: int| 0 <= i < e.len() implies !needs_attention(#[trigger] e[i].1@) by {
            assert(m.services().dom().contains(e[i].0));
        }
        assert forall|i: int| 0 <= i < e.len() implies #[trigger] e[i].1.state != ServiceState::Failed by {
            assert(!needs_attention(e[i].1@));
        }
    }
}

/// What a health check found about a running service.
#[derive(PartialEq, Eq, Structural, Debug)]
pub enum HealthVerdict {
    /// Its process is alive.
    Healthy,
    /// Its process has died.
    Died,
    /// It has no process ID: its process did not start properly.
    NoPid,
}

/// The health monitor's settings and decisions.
pub struct HealthManager {
    /// Health check interval in milliseconds.
    pub check_interval_ms: u64,
}

/// The error recorded for a running service that has no process ID.
pub open spec fn no_pid_error() -> Seq<char> {
    "Process has no PID"@
}

impl HealthManager {
    /// A monitor that checks every five seconds.
    pub fn new() -> (r: Self)
        ensures
            r.check_interval_ms == 5000,
    {
        HealthManager { check_interval_ms: 5000 }
    }

    /// The monitor with its check interval set.
    pub fn with_interval(self, interval_ms: u64) -> (r: Self)
        ensures
            r.check_interval_ms == interval_ms,
    {
        HealthManager { check_interval_ms: interval_ms }
    }

    /// The verdict on a running service: no process ID, or a process that is
    /// alive or not.
    pub fn verdict(pid: Option<u32>, alive: bool) -> (r: HealthVerdict)
        ensures
            pid is None ==> r == HealthVerdict::NoPid,
            pid is Some ==> (r == if alive {
                HealthVerdict::Healthy
            } else {
                HealthVerdict::Died
            }),
    {
        match pid {
            None => HealthVerdict::NoPid,
            Some(_) => if alive {
                HealthVerdict::Healthy
            } else {
                HealthVerdict::Died
            },
        }
    }

    /// Acts on a verdict about the running service `name`: a service without
    /// a process ID is marked failed, a dead one is handed to the restart
    /// policy (which may return the configuration to respawn it with), and a
    /// healthy one is left alone.
    pub fn act(
        &self,
        services: &mut ServiceManager,
        name: &str,
        verdict: HealthVerdict,
        restart_on_failure: bool,
        max_restarts: u32,
    ) -> (r: Option<ServiceConfig>)
        requires
            old(services).wf(),
        ensures
            final(services).wf(),
            final(services).registry() == old(services).registry(),
            verdict == HealthVerdict::Healthy ==> r is None && final(services).services() == old(services).services(),
            verdict == HealthVerdict::NoPid ==> r is None && (old(services).services().dom().contains(
                name@,
            ) ==> final(services).services() == old(services).services().insert(
                name@,
                ManagedServiceView {
                    state: ServiceState::Failed,
                    last_error: Some(no_pid_error()),
                    process: None,
                    ..old(services).services()[name@]
                },
            )) && (!old(services).services().dom().contains(name@) ==> final(services).services()
                == old(services).services()),
            verdict == HealthVerdict::Died ==> {
                let s = old(services).services()[name@];
                &&& !old(services).services().dom().contains(name@) ==> r is None && final(services).services()
                    == old(services).services()
                &&& old(services).services().dom().contains(name@) ==> final(services).services()
                    == old(services).services().insert(name@, after_death(s, restart_on_failure, max_restarts))
                &&& old(services).services().dom().contains(name@) && restart_on_failure && s.restarts
                    < max_restarts ==> r is Some && r->0@ == s.config
                &&& old(services).services().dom().contains(name@) && !(restart_on_failure && s.restarts
                    < max_restarts) ==> r is None
            },
    {
        match verdict {
            HealthVerdict::Healthy => None,
            HealthVerdict::NoPid => {
                services.mark_failed(name, "Process has no PID");
                None
            },
            HealthVerdict::Died => services.handle_death(name, restart_on_failure, max_restarts),
        }
    }
}

} // verus!
