//! The commands of the CLI and the interactive menu that builds one when no
//! command is given: which entries the menu offers and which command each
//! answer leads to.
//!
//! Showing the menu and reading the answers stand outside this library; the
//! answers are handed in here, `None` where the user cancelled or the prompt
//! failed.
use vstd::prelude::*;
use crate::plugin_runtime::PluginCliCommand;
use crate::text::{owned, parse_unsigned, parse_unsigned_exec, str_chars, str_eq};

verus! {

/// A `plugin` subcommand.
pub enum PluginCommand {
    Search { query: String },
    List,
    Installed,
    Install { plugin_id: String, version: Option<String> },
    Update { plugin_id: String },
    UpdateAll,
    Uninstall { plugin_id: String },
    Path { plugin_id: String },
}

/// The content of a `plugin` subcommand.
pub enum PluginCommandView {
    Search { query: Seq<char> },
    List,
    Installed,
    Install { plugin_id: Seq<char>, version: Option<Seq<char>> },
    Update { plugin_id: Seq<char> },
    UpdateAll,
    Uninstall { plugin_id: Seq<char> },
    Path { plugin_id: Seq<char> },
}

impl View for PluginCommand {
    type V = PluginCommandView;

    open spec fn view(&self) -> PluginCommandView {
        match self {
            PluginCommand::Search { query } => PluginCommandView::Search { query: query@ },
            PluginCommand::List => PluginCommandView::List,
            PluginCommand::Installed => PluginCommandView::Installed,
            PluginCommand::Install { plugin_id, version } => PluginCommandView::Install {
                plugin_id: plugin_id@,
                version: match version {
                    Some(v) => Some(v@),
                    None => None,
                },
            },
            PluginCommand::Update { plugin_id } => PluginCommandView::Update { plugin_id: plugin_id@ },
            PluginCommand::UpdateAll => PluginCommandView::UpdateAll,
            PluginCommand::Uninstall { plugin_id } => PluginCommandView::Uninstall { plugin_id: plugin_id@ },
            PluginCommand::Path { plugin_id } => PluginCommandView::Path { plugin_id: plugin_id@ },
        }
    }
}

/// A command of the CLI.
#[allow(inconsistent_fields)]
pub enum Command {
    SelfUpdate { force: bool },
    Start { port: u16 },
    Plugin { command: PluginCommand },
    Run { plugin_id: Option<String>, args: Vec<String> },
    Logs { plugin_id: String, follow: bool, lines: u32, level: Option<String>, service: Option<String> },
    Info,
    External(Vec<String>),
}

/// The content of a command of the CLI.
#[allow(inconsistent_fields)]
pub enum CommandView {
    SelfUpdate { force: bool },
    Start { port: u16 },
    Plugin { command: PluginCommandView },
    Run { plugin_id: Option<Seq<char>>, args: Seq<Seq<char>> },
    Logs {
        plugin_id: Seq<char>,
        follow: bool,
        lines: u32,
        level: Option<Seq<char>>,
        service: Option<Seq<char>>,
    },
    Info,
    External(Seq<Seq<char>>),
}

/// An optional string by its characters.
pub open spec fn opt_view(s: Option<String>) -> Option<Seq<char>> {
    match s {
        Some(v) => Some(v@),
        None => None,
    }
}

impl View for Command {
    type V = CommandView;

    open spec fn view(&self) -> CommandView {
        match self {
            Command::SelfUpdate { force } => CommandView::SelfUpdate { force: *force },
            Command::Start { port } => CommandView::Start { port: *port },
            Command::Plugin { command } => CommandView::Plugin { command: command@ },
            Command::Run { plugin_id, args } => CommandView::Run {
                plugin_id: opt_view(*plugin_id),
                args: args.deep_view(),
            },
            Command::Logs { plugin_id, follow, lines, level, service } => CommandView::Logs {
                plugin_id: plugin_id@,
                follow: *follow,
                lines: *lines,
                level: opt_view(*level),
                service: opt_view(*service),
            },
            Command::Info => CommandView::Info,
            Command::External(args) => CommandView::External(args.deep_view()),
        }
    }
}

/// A built-in command offered by the menu.
#[derive(PartialEq, Eq, Structural, Debug, Clone, Copy)]
pub enum BuiltinCommand {
    SelfUpdate,
    Start,
    Plugin,
    Run,
    Logs,
}

/// An entry of the command menu.
pub enum CommandEntry {
    Builtin(BuiltinCommand),
    Plugin { command: String },
}

/// The content of a menu entry: a built-in command, or a plugin command by name.
pub open spec fn entry_view(e: CommandEntry) -> Result<BuiltinCommand, Seq<char>> {
    match e {
        CommandEntry::Builtin(b) => Ok(b),
        CommandEntry::Plugin { command } => Err(command@),
    }
}

/// The entries of the command menu: the built-in commands in a fixed order
/// (start, plugin, run, logs, self-update), then the command of each plugin,
/// in the order given.
pub open spec fn menu_entries_of(plugin_commands: Seq<PluginCliCommand>) -> Seq<Result<BuiltinCommand, Seq<char>>> {
    seq![
        Ok(BuiltinCommand::Start),
        Ok(BuiltinCommand::Plugin),
        Ok(BuiltinCommand::Run),
        Ok(BuiltinCommand::Logs),
        Ok(BuiltinCommand::SelfUpdate),
    ] + plugin_commands.map_values(|c: PluginCliCommand| Err(c.command@))
}

/// The entries of the command menu (see `menu_entries_of`).
pub fn menu_entries(plugin_commands: &Vec<PluginCliCommand>) -> (r: Vec<CommandEntry>)
    ensures
        r@.map_values(|e: CommandEntry| entry_view(e)) == menu_entries_of(plugin_commands@),
{
    let mut r: Vec<CommandEntry> = Vec::new();
    r.push(CommandEntry::Builtin(BuiltinCommand::Start));
    r.push(CommandEntry::Builtin(BuiltinCommand::Plugin));
    r.push(CommandEntry::Builtin(BuiltinCommand::Run));
    r.push(CommandEntry::Builtin(BuiltinCommand::Logs));
    r.push(CommandEntry::Builtin(BuiltinCommand::SelfUpdate));
    let ghost head = r@.map_values(|e: CommandEntry| entry_view(e));
    let mut i: usize = 0;
    while i < plugin_commands.len()
        invariant
            i <= plugin_commands@.len(),
            head == seq![
                Ok::<BuiltinCommand, Seq<char>>(BuiltinCommand::Start),
                Ok(BuiltinCommand::Plugin),
                Ok(BuiltinCommand::Run),
                Ok(BuiltinCommand::Logs),
                Ok(BuiltinCommand::SelfUpdate),
            ],
            r@.map_values(|e: CommandEntry| entry_view(e)) == head + plugin_commands@.take(
                i as int,
            ).map_values(|c: PluginCliCommand| Err::<BuiltinCommand, Seq<char>>(c.command@)),
        decreases plugin_commands@.len() - i,
    {
        let ghost prev = r@;
        let e = CommandEntry::Plugin { command: plugin_commands[i].command.clone() };
        assert(entry_view(e) == Err::<BuiltinCommand, Seq<char>>(plugin_commands@[i as int].command@));
        r.push(e);
        assert(plugin_commands@.take(i + 1).map_values(
            |c: PluginCliCommand| Err::<BuiltinCommand, Seq<char>>(c.command@),
        ) =~= plugin_commands@.take(i as int).map_values(
            |c: PluginCliCommand| Err::<BuiltinCommand, Seq<char>>(c.command@),
        ).push(Err::<BuiltinCommand, Seq<char>>(plugin_commands@[i as int].command@)));
        assert(r@.map_values(|e: CommandEntry| entry_view(e)) =~= prev.map_values(
            |e: CommandEntry| entry_view(e),
        ).push(entry_view(e)));
        i = i + 1;
    }
    assert(plugin_commands@.take(plugin_commands@.len() as int) =~= plugin_commands@);
    r
}

/// The command a plugin entry of the menu stands for: the plugin's command
/// run as an external command.
pub fn plugin_entry_command(command: String) -> (r: Command)
    ensures
        r@ == CommandView::External(seq![command@]),
{
    let mut args: Vec<String> = Vec::new();
    args.push(command);
    let r = Command::External(args);
    assert(r@ == CommandView::External(seq![command@])) by {
        assert(args.deep_view() =~= seq![command@]);
    }
    r
}

/// The port the local server listens on when none is given.
pub open spec fn default_port() -> u16 {
    14730
}

/// The number of log lines shown when none is given.
pub open spec fn default_lines() -> u32 {
    50
}

/// The `self-update` command from the answer to "force?" (no answer: no).
pub fn self_update_command(force: Option<bool>) -> (r: Command)
    ensures
        r@ == (CommandView::SelfUpdate {
            force: match force {
                Some(f) => f,
                None => false,
            },
        }),
{
    Command::SelfUpdate {
        force: match force {
            Some(f) => f,
            None => false,
        },
    }
}

/// The `start` command from the port typed in: a port number, or the
/// default port when the text is not one.
pub fn start_command(port_input: &str) -> (r: Command)
    ensures
        r@ == (CommandView::Start {
            port: match parse_unsigned(port_input@, 65535) {
                Some(p) => p as u16,
                None => default_port(),
            },
        }),
{
    let chars = str_chars(port_input);
    let port: u16 = match parse_unsigned_exec(chars.as_slice(), 65535) {
        Some(p) => p as u16,
        None => 14730,
    };
    Command::Start { port }
}

/// The `run` command as the menu builds it: no plugin and no arguments.
pub fn run_command() -> (r: Command)
    ensures
        r@ == (CommandView::Run { plugin_id: None, args: Seq::empty() }),
{
    let args: Vec<String> = Vec::new();
    let r = Command::Run { plugin_id: None, args };
    assert(args.deep_view() =~= Seq::<Seq<char>>::empty());
    r
}

/// The `logs` command from the plugin typed in, the answer to "follow?"
/// (no answer: no) and the number of lines typed in (no answer, or text
/// that is not a number: the default).
pub fn logs_command(plugin_id: String, follow: Option<bool>, lines_input: Option<String>) -> (r: Command)
    ensures
        r@ == (CommandView::Logs {
            plugin_id: plugin_id@,
            follow: match follow {
                Some(f) => f,
                None => false,
            },
            lines: match lines_input {
                Some(s) => match parse_unsigned(s@, 0xffff_ffff) {
                    Some(n) => n as u32,
                    None => default_lines(),
                },
                None => default_lines(),
            },
            level: None,
            service: None,
        }),
{
    let lines: u32 = match lines_input {
        Some(s) => {
            let chars = str_chars(s.as_str());
            match parse_unsigned_exec(chars.as_slice(), 0xffff_ffff) {
                Some(n) => n as u32,
                None => 50,
            }
        },
        None => 50,
    };
    Command::Logs {
        plugin_id,
        follow: match follow {
            Some(f) => f,
            None => false,
        },
        lines,
        level: None,
        service: None,
    }
}

/// The keys of the `plugin` submenu, in order.
pub open spec fn plugin_menu_keys_of() -> Seq<Seq<char>> {
    seq![
        "list"@,
        "installed"@,
        "search"@,
        "install"@,
        "update"@,
        "update-all"@,
        "uninstall"@,
        "path"@,
    ]
}

/// The keys of the `plugin` submenu, in order (see `plugin_menu_keys_of`).
pub fn plugin_menu_keys() -> (r: Vec<String>)
    ensures
        r.deep_view() == plugin_menu_keys_of(),
{
    let mut r: Vec<String> = Vec::new();
    r.push(owned("list"));
    r.push(owned("installed"));
    r.push(owned("search"));
    r.push(owned("install"));
    r.push(owned("update"));
    r.push(owned("update-all"));
    r.push(owned("uninstall"));
    r.push(owned("path"));
    assert(r.deep_view() =~= plugin_menu_keys_of());
    r
}

/// Whether the `plugin` submenu entry `key` asks for a text (a query or a
/// plugin ID) before it yields a command.
pub open spec fn key_needs_input(key: Seq<char>) -> bool {
    ||| key == "search"@
    ||| key == "install"@
    ||| key == "update"@
    ||| key == "uninstall"@
    ||| key == "path"@
}

/// Whether the `plugin` submenu entry `key` asks for a text (see `key_needs_input`).
pub fn plugin_key_needs_input(key: &str) -> (r: bool)
    ensures
        r == key_needs_input(key@),
{
    str_eq(key, "search") || str_eq(key, "install") || str_eq(key, "update") || str_eq(key, "uninstall")
        || str_eq(key, "path")
}

/// The `plugin` subcommand for submenu entry `key` and the text typed in
/// for it (read only where the entry asks for one); `None` for an unknown key.
pub open spec fn plugin_choice(key: Seq<char>, input: Seq<char>) -> Option<PluginCommandView> {
    if key == "list"@ {
        Some(PluginCommandView::List)
    } else if key == "installed"@ {
        Some(PluginCommandView::Installed)
    } else if key == "search"@ {
        Some(PluginCommandView::Search { query: input })
    } else if key == "install"@ {
        Some(PluginCommandView::Install { plugin_id: input, version: None })
    } else if key == "update"@ {
        Some(PluginCommandView::Update { plugin_id: input })
    } else if key == "update-all"@ {
        Some(PluginCommandView::UpdateAll)
    } else if key == "uninstall"@ {
        Some(PluginCommandView::Uninstall { plugin_id: input })
    } else if key == "path"@ {
        Some(PluginCommandView::Path { plugin_id: input })
    } else {
        None
    }
}

/// The command for `plugin` submenu entry `key` (see `plugin_choice`), with
/// the text typed in for it: no command where the entry asks for a text and
/// none was given.
pub fn plugin_command(key: &str, input: Option<String>) -> (r: Option<Command>)
    ensures
        key_needs_input(key@) && input is None ==> r is None,
        !(key_needs_input(key@) && input is None) ==> match plugin_choice(
            key@,
            match input {
                Some(s) => s@,
                None => Seq::empty(),
            },
        ) {
            Some(c) => r matches Some(cmd) && cmd@ == (CommandView::Plugin { command: c }),
            None => r is None,
        },
{
    let text = match input {
        Some(s) => s,
        None => {
            if plugin_key_needs_input(key) {
                return None;
            }
            let e = String::new();
            assert(e@ =~= Seq::<char>::empty());
            e
        },
    };
    let command = if str_eq(key, "list") {
        PluginCommand::List
    } else if str_eq(key, "installed") {
        PluginCommand::Installed
    } else if str_eq(key, "search") {
        PluginCommand::Search { query: text }
    } else if str_eq(key, "install") {
        PluginCommand::Install { plugin_id: text, version: None }
    } else if str_eq(key, "update") {
        PluginCommand::Update { plugin_id: text }
    } else if str_eq(key, "update-all") {
        PluginCommand::UpdateAll
    } else if str_eq(key, "uninstall") {
        PluginCommand::Uninstall { plugin_id: text }
    } else if str_eq(key, "path") {
        PluginCommand::Path { plugin_id: text }
    } else {
        return None;
    };
    Some(Command::Plugin { command })
}

} // verus!
