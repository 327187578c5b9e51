//! What the daemon commands show: durations in human form and the rows of
//! the service table.
use vstd::prelude::*;
use crate::protocol::{ServiceInfo, state_name};
use crate::text::{decimal_digits, owned, str_eq, u64_to_decimal};

verus! {

/// A duration in seconds in human form: seconds under a minute, then minutes
/// and seconds, hours and minutes, or days and hours.
pub open spec fn duration_text(secs: u64) -> Seq<char> {
    if secs < 60 {
        decimal_digits(secs as nat) + "s"@
    } else if secs < 3600 {
        decimal_digits((secs / 60) as nat) + "m "@ + decimal_digits((secs % 60) as nat) + "s"@
    } else if secs < 86400 {
        decimal_digits((secs / 3600) as nat) + "h "@ + decimal_digits(((secs % 3600) / 60) as nat) + "m"@
    } else {
        decimal_digits((secs / 86400) as nat) + "d "@ + decimal_digits(((secs % 86400) / 3600) as nat)
            + "h"@
    }
}

/// Two numbers with units, e.g. `3m 20s`.
fn two_units(a: u64, ua: &str, b: u64, ub: &str) -> (r: String)
    ensures
        r@ == decimal_digits(a as nat) + ua@ + decimal_digits(b as nat) + ub@,
{
    let mut r = u64_to_decimal(a);
    r.append(ua);
    let t = u64_to_decimal(b);
    r.append(t.as_str());
    r.append(ub);
    r
}

/// A duration in seconds in human form (see `duration_text`).
pub fn format_duration(secs: u64) -> (r: String)
    ensures
        r@ == duration_text(secs),
{
    if secs < 60 {
        let mut r = u64_to_decimal(secs);
        r.append("s");
        r
    } else if secs < 3600 {
        two_units(secs / 60, "m ", secs % 60, "s")
    } else if secs < 86400 {
        two_units(secs / 3600, "h ", (secs % 3600) / 60, "m")
    } else {
        two_units(secs / 86400, "d ", (secs % 86400) / 3600, "h")
    }
}

/// The row of the service table for a service: name, state, process ID,
/// uptime and restarts, with `-` for an absent process ID or uptime.
pub open spec fn service_row_text(info: ServiceInfo) -> Seq<Seq<char>> {
    seq![
        info.name@,
        state_name(info.state),
        match info.pid {
            Some(p) => decimal_digits(p as nat),
            None => "-"@,
        },
        match info.uptime_secs {
            Some(u) => duration_text(u),
            None => "-"@,
        },
        decimal_digits(info.restarts as nat),
    ]
}

/// The row of the service table for a service (see `service_row_text`).
pub fn service_row(info: &ServiceInfo) -> (r: Vec<String>)
    ensures
        r.deep_view() == service_row_text(*info),
{
    let mut r: Vec<String> = Vec::new();
    r.push(info.name.clone());
    r.push(owned(info.state.as_str()));
    r.push(
        match info.pid {
            Some(p) => u64_to_decimal(p as u64),
            None => owned("-"),
        },
    );
    r.push(
        match info.uptime_secs {
            Some(u) => format_duration(u),
            None => owned("-"),
        },
    );
    r.push(u64_to_decimal(info.restarts as u64));
    assert(r.deep_view() =~= service_row_text(*info));
    r
}

/// The colour a service state is shown in.
#[derive(PartialEq, Eq, Structural, Debug, Clone, Copy)]
pub enum StateStyle {
    Success,
    Info,
    Warning,
    Muted,
    Error,
    /// An unknown state, shown as it is.
    Plain,
}

/// The colour of a state by its name: running, starting, stopping, stopped
/// and failed each have their own; any other name is shown plain.
pub open spec fn state_style_of(state: Seq<char>) -> StateStyle {
    if state == "running"@ {
        StateStyle::Success
    } else if state == "starting"@ {
        StateStyle::Info
    } else if state == "stopping"@ {
        StateStyle::Warning
    } else if state == "stopped"@ {
        StateStyle::Muted
    } else if state == "failed"@ {
        StateStyle::Error
    } else {
        StateStyle::Plain
    }
}

/// The colour of a state by its name (see `state_style_of`).
pub fn state_style(state: &str) -> (r: StateStyle)
    ensures
        r == state_style_of(state@),
{
    if str_eq(state, "running") {
        StateStyle::Success
    } else if str_eq(state, "starting") {
        StateStyle::Info
    } else if str_eq(state, "stopping") {
        StateStyle::Warning
    } else if str_eq(state, "stopped") {
        StateStyle::Muted
    } else if str_eq(state, "failed") {
        StateStyle::Error
    } else {
        StateStyle::Plain
    }
}

/// The entries of the status screen of a running daemon: its state, version,
/// uptime and the paths of its socket, PID file and log file.
pub open spec fn status_entries_of(version: Seq<char>, uptime: u64, socket: Seq<char>, pid_file: Seq<char>, log_file: Seq<
    char,
>) -> Seq<(Seq<char>, Seq<char>)> {
    seq![
        ("Status"@, "running"@),
        ("Version"@, version),
        ("Uptime"@, duration_text(uptime)),
        ("Socket"@, socket),
        ("PID File"@, pid_file),
        ("Log File"@, log_file),
    ]
}

/// The entries of the status screen of a running daemon (see `status_entries_of`).
pub fn status_entries(version: &str, uptime: u64, socket: &str, pid_file: &str, log_file: &str) -> (r: Vec<
    (String, String),
>)
    ensures
        r@.map_values(|e: (String, String)| (e.0@, e.1@)) == status_entries_of(
            version@,
            uptime,
            socket@,
            pid_file@,
            log_file@,
        ),
{
    let mut r: Vec<(String, String)> = Vec::new();
    r.push((owned("Status"), owned("running")));
    r.push((owned("Version"), owned(version)));
    r.push((owned("Uptime"), format_duration(uptime)));
    r.push((owned("Socket"), owned(socket)));
    r.push((owned("PID File"), owned(pid_file)));
    r.push((owned("Log File"), owned(log_file)));
    assert(r@.map_values(|e: (String, String)| (e.0@, e.1@)) =~= status_entries_of(
        version@,
        uptime,
        socket@,
        pid_file@,
        log_file@,
    ));
    r
}

/// How many times a stopping daemon's socket is looked for before giving up.
pub open spec fn stop_polls() -> u32 {
    50
}

/// The step after looking for a stopping daemon's socket.
#[derive(PartialEq, Eq, Structural, Debug, Clone, Copy)]
pub enum StopPoll {
    /// The socket is gone: the daemon stopped.
    Stopped,
    /// Wait a moment and look again.
    WaitAndLook,
    /// Wait a moment, then report that the daemon may still be stopping.
    WaitAndGiveUp,
}

/// The step after look number `attempt` (from 0) for the socket of a
/// stopping daemon, given whether it is still there.
pub fn stop_poll(attempt: u32, socket_exists: bool) -> (r: StopPoll)
    requires
        attempt < stop_polls(),
    ensures
        !socket_exists ==> r == StopPoll::Stopped,
        socket_exists && attempt + 1 < stop_polls() ==> r == StopPoll::WaitAndLook,
        socket_exists && attempt + 1 == stop_polls() ==> r == StopPoll::WaitAndGiveUp,
{
    if !socket_exists {
        StopPoll::Stopped
    } else if attempt + 1 < 50 {
        StopPoll::WaitAndLook
    } else {
        StopPoll::WaitAndGiveUp
    }
}

/// The human form of a duration names its largest unit first, then the
/// whole number of the next unit left over: under a minute the seconds;
/// under an hour the whole minutes and the seconds left; under a day the
/// whole hours and the whole minutes left; else the whole days and the
/// whole hours left.
pub proof fn law_duration_units(secs: u64, a: nat, b: nat)
    ensures
        secs < 60 ==> duration_text(secs) == decimal_digits(secs as nat) + "s"@,
        60 <= secs < 3600 && a * 60 <= secs < (a + 1) * 60 && b == secs - a * 60 ==> duration_text(secs)
            == decimal_digits(a) + "m "@ + decimal_digits(b) + "s"@,
        3600 <= secs < 86400 && a * 3600 <= secs < (a + 1) * 3600 && b * 60 <= secs - a * 3600 < (b + 1) * 60
            ==> duration_text(secs) == decimal_digits(a) + "h "@ + decimal_digits(b) + "m"@,
        86400 <= secs && a * 86400 <= secs < (a + 1) * 86400 && b * 3600 <= secs - a * 86400 < (b + 1) * 3600
            ==> duration_text(secs) == decimal_digits(a) + "d "@ + decimal_digits(b) + "h"@,
{
    let s = secs as int;
    if 60 <= secs < 3600 && a * 60 <= secs < (a + 1) * 60 && b == secs - a * 60 {
        assert(a == s / 60 && b == s % 60) by (nonlinear_arith)
            requires
                a * 60 <= s < (a + 1) * 60,
                b == s - a * 60,
        ;
    }
    if 3600 <= secs < 86400 && a * 3600 <= secs < (a + 1) * 3600 && b * 60 <= secs - a * 3600 < (b + 1) * 60 {
        assert(a == s / 3600) by (nonlinear_arith)
            requires
                a * 3600 <= s < (a + 1) * 3600,
        ;
        assert(s % 3600 == s - a * 3600) by (nonlinear_arith)
            requires
                a == s / 3600,
                0 <= s,
        ;
        assert(b == (s % 3600) / 60) by (nonlinear_arith)
            requires
                b * 60 <= s % 3600 < (b + 1) * 60,
        ;
    }
    if 86400 <= secs && a * 86400 <= secs < (a + 1) * 86400 && b * 3600 <= secs - a * 86400 < (b + 1) * 3600 {
        assert(a == s / 86400) by (nonlinear_arith)
            requires
                a * 86400 <= s < (a + 1) * 86400,
        ;
        assert(s % 86400 == s - a * 86400) by (nonlinear_arith)
            requires
                a == s / 86400,
                0 <= s,
        ;
        assert(b == (s % 86400) / 3600) by (nonlinear_arith)
            requires
                b * 3600 <= s % 86400 < (b + 1) * 3600,
        ;
    }
}

} // verus!
