//! The local server behind `adi start`: which tools the machine offers, what
//! the start screen lists, how the machine is named, and how a browser's
//! connect request is answered.
//!
//! Looking tools up on the machine, serving HTTP and running the cocoon
//! plugin stand outside this library; they hand their findings in here.
use vstd::prelude::*;
use crate::completions::{join, join_strings};
use crate::text::{owned, str_eq, trim, trim_ws, u64_to_decimal, decimal_digits};

verus! {

/// The plugin that runs the local machine as a cocoon.
pub open spec fn cocoon_plugin_id() -> Seq<char> {
    "adi.cocoon"@
}

/// What kind of tool a capability is.
#[derive(PartialEq, Eq, Structural, Debug, Clone, Copy)]
pub enum CapabilityCategory {
    AiAgent,
    Runtime,
    Tool,
}

/// A tool found on the machine.
pub struct Capability {
    pub name: String,
    pub category: CapabilityCategory,
}

/// The tools looked for on the machine, with their categories, in the order
/// they are looked for.
pub open spec fn known_tools() -> Seq<(Seq<char>, CapabilityCategory)> {
    seq![
        ("codex"@, CapabilityCategory::AiAgent),
        ("aider"@, CapabilityCategory::AiAgent),
        ("cursor"@, CapabilityCategory::AiAgent),
        ("copilot"@, CapabilityCategory::AiAgent),
        ("gemini"@, CapabilityCategory::AiAgent),
        ("node"@, CapabilityCategory::Runtime),
        ("bun"@, CapabilityCategory::Runtime),
        ("deno"@, CapabilityCategory::Runtime),
        ("python3"@, CapabilityCategory::Runtime),
        ("python"@, CapabilityCategory::Runtime),
        ("cargo"@, CapabilityCategory::Runtime),
        ("go"@, CapabilityCategory::Runtime),
        ("java"@, CapabilityCategory::Runtime),
        ("ruby"@, CapabilityCategory::Runtime),
        ("php"@, CapabilityCategory::Runtime),
        ("dotnet"@, CapabilityCategory::Runtime),
        ("swift"@, CapabilityCategory::Runtime),
        ("git"@, CapabilityCategory::Tool),
        ("gh"@, CapabilityCategory::Tool),
        ("docker"@, CapabilityCategory::Tool),
        ("kubectl"@, CapabilityCategory::Tool),
        ("terraform"@, CapabilityCategory::Tool),
        ("aws"@, CapabilityCategory::Tool),
        ("gcloud"@, CapabilityCategory::Tool),
        ("az"@, CapabilityCategory::Tool),
    ]
}

/// The names of the tools looked for, in order (see `known_tools`).
pub fn known_tool_names() -> (r: Vec<String>)
    ensures
        r.deep_view() == known_tools().map_values(|t: (Seq<char>, CapabilityCategory)| t.0),
{
    let mut r: Vec<String> = Vec::new();
    r.push(owned("codex"));
    r.push(owned("aider"));
    r.push(owned("cursor"));
    r.push(owned("copilot"));
    r.push(owned("gemini"));
    r.push(owned("node"));
    r.push(owned("bun"));
    r.push(owned("deno"));
    r.push(owned("python3"));
    r.push(owned("python"));
    r.push(owned("cargo"));
    r.push(owned("go"));
    r.push(owned("java"));
    r.push(owned("ruby"));
    r.push(owned("php"));
    r.push(owned("dotnet"));
    r.push(owned("swift"));
    r.push(owned("git"));
    r.push(owned("gh"));
    r.push(owned("docker"));
    r.push(owned("kubectl"));
    r.push(owned("terraform"));
    r.push(owned("aws"));
    r.push(owned("gcloud"));
    r.push(owned("az"));
    assert(r.deep_view() =~= known_tools().map_values(|t: (Seq<char>, CapabilityCategory)| t.0));
    r
}

/// The category of the tool at `i` of `known_tools` (executable).
fn known_tool_category(i: usize) -> (r: CapabilityCategory)
    requires
        i < known_tools().len(),
    ensures
        r == known_tools()[i as int].1,
{
    if i < 5 {
        CapabilityCategory::AiAgent
    } else if i < 17 {
        CapabilityCategory::Runtime
    } else {
        CapabilityCategory::Tool
    }
}

/// The tools of `tools` whose entry in `found` is `true`, in order.
pub open spec fn found_tools(tools: Seq<(Seq<char>, CapabilityCategory)>, found: Seq<bool>) -> Seq<
    (Seq<char>, CapabilityCategory),
>
    decreases tools.len(),
{
    if tools.len() == 0 || found.len() == 0 {
        Seq::empty()
    } else {
        let r = found_tools(tools.drop_last(), found.drop_last());
        if found.last() {
            r.push(tools.last())
        } else {
            r
        }
    }
}

/// A capability as a name and a category.
pub open spec fn capability_view(c: Capability) -> (Seq<char>, CapabilityCategory) {
    (c.name@, c.category)
}

/// The capabilities of the machine, from whether each tool of
/// `known_tool_names` was found on it (`found[i]` for tool `i`).
pub fn detect_capabilities(found: &Vec<bool>) -> (r: Vec<Capability>)
    requires
        found@.len() == known_tools().len(),
    ensures
        r@.map_values(|c: Capability| capability_view(c)) == found_tools(known_tools(), found@),
{
    let names = known_tool_names();
    let ghost tools = known_tools();
    let mut r: Vec<Capability> = Vec::new();
    let mut i: usize = 0;
    assert(names@.len() == names.deep_view().len());
    while i < found.len()
        invariant
            found@.len() == tools.len(),
            names@.len() == tools.len(),
            tools == known_tools(),
            names.deep_view() == tools.map_values(|t: (Seq<char>, CapabilityCategory)| t.0),
            i <= found@.len(),
            r@.map_values(|c: Capability| capability_view(c)) == found_tools(
                tools.take(i as int),
                found@.take(i as int),
            ),
        decreases found@.len() - i,
    {
        assert(tools.take(i + 1).drop_last() =~= tools.take(i as int));
        assert(found@.take(i + 1).drop_last() =~= found@.take(i as int));
        if found[i] {
            let ghost prev = r@;
            assert(names.deep_view()[i as int] == tools[i as int].0);
            let c = Capability { name: names[i].clone(), category: known_tool_category(i) };
            assert(capability_view(c) == tools[i as int]);
            r.push(c);
            assert(r@.map_values(|c: Capability| capability_view(c)) =~= prev.map_values(
                |c: Capability| capability_view(c),
            ).push(tools[i as int]));
        }
        i = i + 1;
    }
    assert(tools.take(tools.len() as int) =~= tools);
    assert(found@.take(found@.len() as int) =~= found@);
    r
}

/// The names of the capabilities of category `cat`, in order.
pub open spec fn names_in(caps: Seq<(Seq<char>, CapabilityCategory)>, cat: CapabilityCategory) -> Seq<
    Seq<char>,
>
    decreases caps.len(),
{
    if caps.len() == 0 {
        Seq::empty()
    } else {
        let r = names_in(caps.drop_last(), cat);
        if caps.last().1 == cat {
            r.push(caps.last().0)
        } else {
            r
        }
    }
}

/// The names of the capabilities of category `cat`, in order.
pub fn capability_names(caps: &Vec<Capability>, cat: CapabilityCategory) -> (r: Vec<String>)
    ensures
        r.deep_view() == names_in(caps@.map_values(|c: Capability| capability_view(c)), cat),
{
    let ghost cs = caps@.map_values(|c: Capability| capability_view(c));
    let mut r: Vec<String> = Vec::new();
    let mut i: usize = 0;
    while i < caps.len()
        invariant
            cs == caps@.map_values(|c: Capability| capability_view(c)),
            i <= caps@.len(),
            r.deep_view() == names_in(cs.take(i as int), cat),
        decreases caps@.len() - i,
    {
        assert(cs.take(i + 1).drop_last() =~= cs.take(i as int));
        assert(cs.take(i + 1).last() == capability_view(caps@[i as int]));
        if caps[i].category == cat {
            let ghost prev = r.deep_view();
            r.push(caps[i].name.clone());
            assert(r.deep_view() =~= prev.push(caps@[i as int].name@));
        }
        i = i + 1;
    }
    assert(cs.take(cs.len() as int) =~= cs);
    r
}

/// The entries of the start screen: the machine's name, the local URL, and
/// the agents and runtimes found, each joined with `, ` and listed only when
/// there is one.
pub open spec fn start_entries(hostname: Seq<char>, port: u16, agents: Seq<Seq<char>>, runtimes: Seq<
    Seq<char>,
>) -> Seq<(Seq<char>, Seq<char>)> {
    let base = seq![("Name"@, hostname), ("URL"@, "http://localhost:"@ + decimal_digits(port as nat))];
    let with_agents = if agents.len() > 0 {
        base.push(("Agents"@, join(agents, ", "@)))
    } else {
        base
    };
    if runtimes.len() > 0 {
        with_agents.push(("Runtimes"@, join(runtimes, ", "@)))
    } else {
        with_agents
    }
}

/// The key-value entries of the start screen (see `start_entries`).
pub fn start_screen_entries(hostname: &str, port: u16, agents: &Vec<String>, runtimes: &Vec<String>) -> (r:
    Vec<(String, String)>)
    ensures
        r@.map_values(|e: (String, String)| (e.0@, e.1@)) == start_entries(
            hostname@,
            port,
            agents.deep_view(),
            runtimes.deep_view(),
        ),
{
    let mut r: Vec<(String, String)> = Vec::new();
    r.push((owned("Name"), owned(hostname)));
    let mut url = owned("http://localhost:");
    let p = u64_to_decimal(port as u64);
    url.append(p.as_str());
    r.push((owned("URL"), url));
    let ghost base = r@.map_values(|e: (String, String)| (e.0@, e.1@));
    assert(base =~= seq![("Name"@, hostname@), ("URL"@, "http://localhost:"@ + decimal_digits(port as nat))]);
    if agents.len() > 0 {
        let ghost prev = r@;
        r.push((owned("Agents"), join_strings(agents, ", ")));
        assert(r@ =~= prev.push(r@.last()));
    }
    let ghost mid = r@;
    if runtimes.len() > 0 {
        r.push((owned("Runtimes"), join_strings(runtimes, ", ")));
        assert(r@ =~= mid.push(r@.last()));
    }
    assert(r@.map_values(|e: (String, String)| (e.0@, e.1@)) =~= start_entries(
        hostname@,
        port,
        agents.deep_view(),
        runtimes.deep_view(),
    ));
    r
}

/// Whether the cocoon plugin still has to be installed: it is not among the
/// installed plugins, given as (id, version).
pub fn needs_cocoon(installed: &Vec<(String, String)>) -> (r: bool)
    ensures
        r == !(exists|i: int| 0 <= i < installed@.len() && #[trigger] installed@[i].0@ == cocoon_plugin_id()),
{
    let mut i: usize = 0;
    while i < installed.len()
        invariant
            i <= installed@.len(),
            forall|j: int| 0 <= j < i ==> #[trigger] installed@[j].0@ != cocoon_plugin_id(),
        decreases installed@.len() - i,
    {
        if str_eq(installed[i].0.as_str(), "adi.cocoon") {
            return false;
        }
        i = i + 1;
    }
    true
}

/// The machine's display name: the computer name reported by the system
/// (macOS), trimmed, when it is not empty; else the host name; else
/// `Local Machine`.
pub open spec fn machine_name_of(computer_name: Option<Seq<char>>, host_name: Option<Seq<char>>) -> Seq<char> {
    match computer_name {
        Some(c) if trim_ws(c).len() > 0 => trim_ws(c),
        _ => match host_name {
            Some(h) => h,
            None => "Local Machine"@,
        },
    }
}

/// The machine's display name (see `machine_name_of`).
pub fn machine_name(computer_name: Option<&str>, host_name: Option<String>) -> (r: String)
    ensures
        r@ == machine_name_of(
            match computer_name {
                Some(c) => Some(c@),
                None => None,
            },
            match host_name {
                Some(h) => Some(h@),
                None => None,
            },
        ),
{
    if let Some(c) = computer_name {
        let t = trim(c);
        if t.as_str().unicode_len() > 0 {
            return t;
        }
    }
    match host_name {
        Some(h) => h,
        None => owned("Local Machine"),
    }
}

/// The answer to a browser's connect request.
pub enum ConnectReply {
    /// A browser has connected before; nothing is done.
    AlreadyConnected { name: String },
    /// The request was handed on and the machine is connecting.
    Connecting { name: String },
    /// The request could not be handed on.
    Error { message: String },
}

/// Whether a browser has connected to the local server.
pub struct ConnectGate {
    connected: bool,
    hostname: String,
}

impl ConnectGate {
    /// Whether a browser has connected.
    pub closed spec fn is_connected(self) -> bool {
        self.connected
    }

    /// The machine's name, as reported to browsers.
    pub closed spec fn name(self) -> Seq<char> {
        self.hostname@
    }

    /// A gate for machine `hostname` that no browser has passed.
    pub fn new(hostname: String) -> (r: Self)
        ensures
            !r.is_connected(),
            r.name() == hostname@,
    {
        ConnectGate { connected: false, hostname }
    }

    /// Whether a browser has connected (executable).
    pub fn connected(&self) -> (r: bool)
        ensures
            r == self.is_connected(),
    {
        self.connected
    }

    /// The health report's fields: the machine's name and whether a browser
    /// has connected.
    pub fn health(&self) -> (r: (String, bool))
        ensures
            r.0@ == self.name(),
            r.1 == self.is_connected(),
    {
        (self.hostname.clone(), self.connected)
    }

    /// The answer to a connect request when a browser has connected before;
    /// `None` when the request is to be handed on.
    pub fn begin_connect(&self) -> (r: Option<ConnectReply>)
        ensures
            self.is_connected() ==> (r matches Some(ConnectReply::AlreadyConnected { name }) && name@
                == self.name()),
            !self.is_connected() ==> r is None,
    {
        if self.connected {
            Some(ConnectReply::AlreadyConnected { name: self.hostname.clone() })
        } else {
            None
        }
    }

    /// The answer once the request was handed on (`sent`, with the reason
    /// when it could not be): on success the machine counts as connected.
    pub fn finish_connect(&mut self, sent: Result<(), String>) -> (r: ConnectReply)
        ensures
            final(self).name() == old(self).name(),
            match sent {
                Ok(()) => final(self).is_connected() && (r matches ConnectReply::Connecting { name } && name@
                    == old(self).name()),
                Err(e) => final(self).is_connected() == old(self).is_connected() && (r matches ConnectReply::Error {
                    message,
                } && message@ == "Failed to process request: "@ + e@),
            },
    {
        match sent {
            Ok(()) => {
                self.connected = true;
                ConnectReply::Connecting { name: self.hostname.clone() }
            },
            Err(e) => {
                let mut message = owned("Failed to process request: ");
                message.append(e.as_str());
                ConnectReply::Error { message }
            },
        }
    }
}

} // verus!
