//! Command execution with privilege isolation: the command lines that run a
//! command as the regular or the privileged daemon user, and the plans for
//! redirecting privileged ports.
//!
//! Running the commands stands outside this library.
use vstd::prelude::*;
use crate::text::{decimal_digits, owned, str_eq, u64_to_decimal};

verus! {

/// Command executor with privilege isolation.
pub struct CommandExecutor {
    /// Regular user for normal operations.
    regular_user: String,
    /// Privileged user for root operations.
    privileged_user: String,
}

/// How a privileged port is redirected to a high port.
pub enum PortBinding {
    /// The port is not privileged; nothing to do.
    NotPrivileged,
    /// Run `iptables` with these arguments as the privileged user.
    Iptables { args: Vec<String> },
    /// Write `rule` to the file `rule_path`, then run `pfctl -f <rule_path>`
    /// and `pfctl -e` as the privileged user.
    Pfctl { rule: String, rule_path: String },
    /// This platform has no way to redirect ports.
    Unsupported,
}

/// The arguments of `iptables` that add (`-A`) the redirect of `port` to `target`.
pub open spec fn iptables_add_args(port: u16, target: u16) -> Seq<Seq<char>> {
    seq![
        "-t"@,
        "nat"@,
        "-A"@,
        "PREROUTING"@,
        "-p"@,
        "tcp"@,
        "--dport"@,
        decimal_digits(port as nat),
        "-j"@,
        "REDIRECT"@,
        "--to-port"@,
        decimal_digits(target as nat),
    ]
}

/// The arguments of `iptables` that delete (`-D`) the redirect of `port`.
pub open spec fn iptables_delete_args(port: u16) -> Seq<Seq<char>> {
    seq![
        "-t"@,
        "nat"@,
        "-D"@,
        "PREROUTING"@,
        "-p"@,
        "tcp"@,
        "--dport"@,
        decimal_digits(port as nat),
        "-j"@,
        "REDIRECT"@,
    ]
}

/// The packet-filter rule that redirects `port` on loopback to `target`.
pub open spec fn pf_rule(port: u16, target: u16) -> Seq<char> {
    "rdr pass on lo0 inet proto tcp from any to any port "@ + decimal_digits(port as nat)
        + " -> 127.0.0.1 port "@ + decimal_digits(target as nat)
}

/// The temporary file that holds the rule for `port`.
pub open spec fn pf_rule_path(port: u16) -> Seq<char> {
    "/tmp/adi-pf-"@ + decimal_digits(port as nat) + ".conf"@
}

/// Appends a string to a list of strings.
fn push_string(v: &mut Vec<String>, s: String)
    ensures
        final(v).deep_view() == old(v).deep_view().push(s@),
{
    let ghost prev = v.deep_view();
    v.push(s);
    assert(v.deep_view() =~= prev.push(s@));
}

/// `prefix` followed by copies of `args`.
fn with_args(prefix: Vec<String>, args: &[String]) -> (r: Vec<String>)
    ensures
        r.deep_view() == prefix.deep_view() + args@.map_values(|a: String| a@),
{
    let mut r = prefix;
    let ghost start = r.deep_view();
    let mut i: usize = 0;
    while i < args.len()
        invariant
            i <= args@.len(),
            r.deep_view() =~= start + args@.map_values(|a: String| a@).take(i as int),
        decreases args@.len() - i,
    {
        let ghost prev = r.deep_view();
        r.push(args[i].clone());
        assert(r.deep_view() =~= prev.push(args@[i as int]@));
        i = i + 1;
    }
    assert(args@.map_values(|a: String| a@).take(args@.len() as int) =~= args@.map_values(
        |a: String| a@,
    ));
    r
}

impl CommandExecutor {
    /// An executor that runs commands as `regular_user`, and privileged
    /// commands as `privileged_user`.
    pub fn new(regular_user: String, privileged_user: String) -> (r: Self)
        ensures
            r.regular_user_spec() == regular_user@,
            r.privileged_user_spec() == privileged_user@,
    {
        CommandExecutor { regular_user, privileged_user }
    }

    /// The regular user.
    pub closed spec fn regular_user_spec(&self) -> Seq<char> {
        self.regular_user@
    }

    /// The privileged user.
    pub closed spec fn privileged_user_spec(&self) -> Seq<char> {
        self.privileged_user@
    }

    /// The regular user.
    pub fn regular_user(&self) -> (r: &String)
        ensures
            r@ == self.regular_user_spec(),
    {
        &self.regular_user
    }

    /// The privileged user.
    pub fn privileged_user(&self) -> (r: &String)
        ensures
            r@ == self.privileged_user_spec(),
    {
        &self.privileged_user
    }

    /// The arguments of `sudo` that run `cmd args...` as the regular user.
    pub fn run_args(&self, cmd: &str, args: &[String]) -> (r: Vec<String>)
        ensures
            r.deep_view() == seq!["-u"@, self.regular_user_spec(), cmd@] + args@.map_values(
                |a: String| a@,
            ),
    {
        let mut prefix: Vec<String> = Vec::new();
        prefix.push(owned("-u"));
        prefix.push(self.regular_user.clone());
        prefix.push(owned(cmd));
        assert(prefix.deep_view() =~= seq!["-u"@, self.regular_user_spec(), cmd@]);
        with_args(prefix, args)
    }

    /// The arguments of `sudo` that run `cmd args...` as root: as the
    /// privileged user, through a second `sudo`.
    pub fn sudo_run_args(&self, cmd: &str, args: &[String]) -> (r: Vec<String>)
        ensures
            r.deep_view() == seq!["-u"@, self.privileged_user_spec(), "sudo"@, cmd@] + args@.map_values(
                |a: String| a@,
            ),
    {
        let mut prefix: Vec<String> = Vec::new();
        prefix.push(owned("-u"));
        prefix.push(self.privileged_user.clone());
        prefix.push(owned("sudo"));
        prefix.push(owned(cmd));
        assert(prefix.deep_view() =~= seq!["-u"@, self.privileged_user_spec(), "sudo"@, cmd@]);
        with_args(prefix, args)
    }

    /// How to redirect privileged `port` to `target_port` on the operating
    /// system `os` (as `std::env::consts::OS` names it): nothing for a port of
    /// 1024 or above, an `iptables` NAT rule on Linux, a `pfctl` rule on macOS.
    pub fn bind_port(&self, port: u16, target_port: u16, os: &str) -> (r: PortBinding)
        ensures
            port >= 1024 ==> r is NotPrivileged,
            port < 1024 && os@ == "linux"@ ==> (r matches PortBinding::Iptables { args }
                && args.deep_view() == iptables_add_args(port, target_port)),
            port < 1024 && os@ == "macos"@ ==> (r matches PortBinding::Pfctl { rule, rule_path }
                && rule@ == pf_rule(port, target_port) && rule_path@ == pf_rule_path(port)),
            port < 1024 && os@ != "linux"@ && os@ != "macos"@ ==> r is Unsupported,
    {
        if port >= 1024 {
            return PortBinding::NotPrivileged;
        }
        proof {
            reveal_strlit("linux");
            reveal_strlit("macos");
            assert("linux"@[0] != "macos"@[0]);
        }
        if str_eq(os, "linux") {
            let mut args: Vec<String> = Vec::new();
            push_string(&mut args, owned("-t"));
            push_string(&mut args, owned("nat"));
            push_string(&mut args, owned("-A"));
            push_string(&mut args, owned("PREROUTING"));
            push_string(&mut args, owned("-p"));
            push_string(&mut args, owned("tcp"));
            push_string(&mut args, owned("--dport"));
            push_string(&mut args, u64_to_decimal(port as u64));
            push_string(&mut args, owned("-j"));
            push_string(&mut args, owned("REDIRECT"));
            push_string(&mut args, owned("--to-port"));
            push_string(&mut args, u64_to_decimal(target_port as u64));
            assert(args.deep_view() =~= iptables_add_args(port, target_port));
            PortBinding::Iptables { args }
        } else if str_eq(os, "macos") {
            let mut rule = owned("rdr pass on lo0 inet proto tcp from any to any port ");
            let p = u64_to_decimal(port as u64);
            rule.append(p.as_str());
            rule.append(" -> 127.0.0.1 port ");
            let t = u64_to_decimal(target_port as u64);
            rule.append(t.as_str());
            let mut rule_path = owned("/tmp/adi-pf-");
            rule_path.append(p.as_str());
            rule_path.append(".conf");
            PortBinding::Pfctl { rule, rule_path }
        } else {
            PortBinding::Unsupported
        }
    }

    /// The `iptables` arguments that remove the redirect of `port` on the
    /// operating system `os`; only Linux needs (and attempts) a removal.
    pub fn unbind_port_args(&self, port: u16, os: &str) -> (r: Option<Vec<String>>)
        ensures
            os@ == "linux"@ ==> (r matches Some(args) && args.deep_view() == iptables_delete_args(
                port,
            )),
            os@ != "linux"@ ==> r is None,
    {
        if str_eq(os, "linux") {
            let mut args: Vec<String> = Vec::new();
            push_string(&mut args, owned("-t"));
            push_string(&mut args, owned("nat"));
            push_string(&mut args, owned("-D"));
            push_string(&mut args, owned("PREROUTING"));
            push_string(&mut args, owned("-p"));
            push_string(&mut args, owned("tcp"));
            push_string(&mut args, owned("--dport"));
            push_string(&mut args, u64_to_decimal(port as u64));
            push_string(&mut args, owned("-j"));
            push_string(&mut args, owned("REDIRECT"));
            assert(args.deep_view() =~= iptables_delete_args(port));
            Some(args)
        } else {
            None
        }
    }
}

} // verus!
