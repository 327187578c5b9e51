use adi_cli::error::InstallerError;
use adi_cli::external::{
    alias_note, answer_accepts, autoinstall_action, autoinstall_plugin_id, install_outcome, parse_cli_result,
    split_command_line, AutoinstallAction, AutoinstallResult,
};
use adi_cli::interactive::{
    logs_command, menu_entries, plugin_command, plugin_entry_command, plugin_key_needs_input, plugin_menu_keys,
    run_command, self_update_command, start_command, BuiltinCommand, Command, CommandEntry, PluginCommand,
};
use adi_cli::plugin_files::{version_dir_name, FileSearch, FileStep};
use adi_cli::plugin_registry::{
    installed_row, plugin_list_row, select_platform_build, tags_text, tally_batch, version_label, DependencyWalk,
    PlatformBuild, PluginSummary, WalkStep,
};
use adi_cli::json::JsonValue;
use adi_cli::plugin_runtime::{
    cli_context_from_json, find_plugin_by_command, parse_cli_args, parse_cli_context, OptionValue, PluginCliCommand,
};
use adi_cli::start::{
    capability_names, detect_capabilities, known_tool_names, machine_name, needs_cocoon, start_screen_entries,
    CapabilityCategory, ConnectGate, ConnectReply,
};

fn words(ws: &[&str]) -> Vec<String> {
    ws.iter().map(|w| w.to_string()).collect()
}

fn cli_command(command: &str, plugin: &str, aliases: &[&str]) -> PluginCliCommand {
    PluginCliCommand {
        command: command.to_string(),
        plugin_id: plugin.to_string(),
        description: format!("{} things", command),
        aliases: words(aliases),
    }
}

fn check_id(step: &WalkStep) -> (String, bool) {
    match step {
        WalkStep::Check { id, dependency } => (id.clone(), *dependency),
        _ => panic!("expected a check"),
    }
}

#[test]
fn dependency_walk_installs_each_plugin_once() {
    // a depends on b and c; b depends on c and a (a cycle); c depends on nothing.
    let (mut walk, step) = DependencyWalk::start("a", Some("1.2.0"));
    assert_eq!(check_id(&step), ("a".to_string(), false));
    match walk.on_checked(false) {
        WalkStep::Install { id, version } => {
            assert_eq!(id, "a");
            assert_eq!(version, Some("1.2.0".to_string()));
        }
        _ => panic!("a is installed first"),
    }
    assert!(matches!(walk.on_installed(), WalkStep::ListDependencies { .. }));
    let step = walk.on_dependencies(&words(&["b", "c"]));
    assert_eq!(check_id(&step), ("b".to_string(), true));
    match walk.on_checked(false) {
        WalkStep::Install { id, version } => {
            assert_eq!(id, "b");
            assert_eq!(version, None);
        }
        _ => panic!("b is installed next"),
    }
    walk.on_installed();
    let step = walk.on_dependencies(&words(&["c", "a"]));
    assert_eq!(check_id(&step), ("c".to_string(), true));
    assert!(matches!(walk.on_checked(false), WalkStep::Install { .. }));
    walk.on_installed();
    // c has no dependencies; b's "a" was seen, and a's "c" was seen: done.
    assert!(matches!(walk.on_dependencies(&vec![]), WalkStep::Finished));
}

#[test]
fn dependency_walk_skips_installed_plugins() {
    let (mut walk, _) = DependencyWalk::start("a", None);
    assert!(matches!(walk.on_checked(true), WalkStep::Finished));
    let (mut walk, _) = DependencyWalk::start("x", None);
    walk.on_checked(false);
    walk.on_installed();
    let step = walk.on_dependencies(&words(&["y", "z"]));
    assert_eq!(check_id(&step), ("y".to_string(), true));
    let step = walk.on_checked(true);
    assert_eq!(check_id(&step), ("z".to_string(), true));
    assert!(matches!(walk.on_checked(true), WalkStep::Finished));
}

#[test]
fn platform_builds_and_batches() {
    let builds = vec![
        PlatformBuild { platform: "linux-x86_64".to_string(), size_bytes: 10 },
        PlatformBuild { platform: "darwin-aarch64".to_string(), size_bytes: 20 },
    ];
    assert_eq!(select_platform_build("adi.tasks", &builds, "darwin-aarch64").ok(), Some(1));
    match select_platform_build("adi.tasks", &builds, "windows-x86_64") {
        Err(InstallerError::Other(m)) => assert_eq!(m, "Plugin adi.tasks does not support platform windows-x86_64"),
        _ => panic!("unsupported platform"),
    }
    let report = tally_batch(&words(&["a", "b", "c"]), &vec![true, false, true]);
    assert_eq!(report.installed, 2);
    assert_eq!(report.failed, vec!["b"]);
}

#[test]
fn plugin_list_rows() {
    let p = PluginSummary {
        id: "adi.tasks".to_string(),
        latest_version: "0.3.1".to_string(),
        description: "Task manager".to_string(),
        plugin_type: "extension".to_string(),
        tags: words(&["productivity", "tasks"]),
    };
    assert_eq!(plugin_list_row(&p), vec!["adi.tasks", "v0.3.1", "Task manager", "extension"]);
    assert_eq!(tags_text(&p), Some("Tags: productivity, tasks".to_string()));
    assert_eq!(tags_text(&PluginSummary { tags: vec![], ..p }), None);
    assert_eq!(installed_row("adi.kb", "1.0.0"), vec!["adi.kb", "v1.0.0"]);
    assert_eq!(version_label("2"), "v2");
}

#[test]
fn commands_found_by_name_or_alias() {
    let commands = vec![cli_command("tasks", "adi.tasks", &["t"]), cli_command("lint", "adi.linter", &[])];
    assert_eq!(find_plugin_by_command(&commands, "tasks"), Some("adi.tasks".to_string()));
    assert_eq!(find_plugin_by_command(&commands, "t"), Some("adi.tasks".to_string()));
    assert_eq!(find_plugin_by_command(&commands, "lint"), Some("adi.linter".to_string()));
    assert_eq!(find_plugin_by_command(&commands, "kb"), None);
}

#[test]
fn cli_arguments_taken_apart() {
    let args = parse_cli_args(&words(&["create", "title", "--priority", "high", "--force", "--json", "x"]));
    assert_eq!(args.subcommand, Some("create".to_string()));
    assert_eq!(args.positional, vec!["title"]);
    let find = |k: &str| args.options.iter().rev().find(|(key, _)| key == k).map(|(_, v)| v);
    assert!(matches!(find("priority"), Some(OptionValue::Text(v)) if v == "high"));
    assert!(matches!(find("force"), Some(OptionValue::Flag)));
    assert!(matches!(find("json"), Some(OptionValue::Text(v)) if v == "x"));
    let empty = parse_cli_args(&vec![]);
    assert_eq!(empty.subcommand, None);
    assert!(empty.options.is_empty() && empty.positional.is_empty());
}

#[test]
fn plugin_file_search() {
    assert_eq!(version_dir_name(" 0.8.8\n"), "0.8.8");
    let (mut search, step) = FileSearch::start("plugin.toml");
    assert!(matches!(step, FileStep::ReadVersion));
    let path = match search.on_version(Some("0.8.8\n")) {
        FileStep::Check { path } => path,
        _ => panic!("the versioned directory is checked first"),
    };
    assert_eq!(path, vec!["0.8.8", "plugin.toml"]);
    let path = match search.on_exists(path, false) {
        FileStep::Check { path } => path,
        _ => panic!("then the plugin directory itself"),
    };
    assert_eq!(path, vec!["plugin.toml"]);
    assert!(matches!(search.on_exists(path, false), FileStep::ListSubdirectories));
    let subdirs = vec![("0.7.0".to_string(), false), ("0.8.0".to_string(), true), ("0.9.0".to_string(), true)];
    match search.on_subdirectories(&subdirs) {
        FileStep::Found { path } => assert_eq!(path, vec!["0.8.0", "plugin.toml"]),
        _ => panic!("found in the first subdirectory that has it"),
    }
    let (mut search, _) = FileSearch::start("messages.ftl");
    let path = match search.on_version(None) {
        FileStep::Check { path } => path,
        _ => panic!("no version file: the plugin directory"),
    };
    match search.on_exists(path, true) {
        FileStep::Found { path } => assert_eq!(path, vec!["messages.ftl"]),
        _ => panic!("found directly"),
    }
    let (mut search, _) = FileSearch::start("messages.ftl");
    let path = match search.on_version(None) {
        FileStep::Check { path } => path,
        _ => panic!(),
    };
    search.on_exists(path, false);
    assert!(matches!(search.on_subdirectories(&vec![]), FileStep::NotFound));
}

#[test]
fn external_commands() {
    let (command, rest) = split_command_line(&words(&["tasks", "list", "--all"])).unwrap();
    assert_eq!(command, "tasks");
    assert_eq!(rest, vec!["list", "--all"]);
    assert!(split_command_line(&vec![]).is_none());
    assert_eq!(autoinstall_plugin_id("kb"), "adi.cli.kb");
    assert!(autoinstall_action(false, false, true) == AutoinstallAction::ReportUnknown);
    assert!(autoinstall_action(true, true, true) == AutoinstallAction::Decline);
    assert!(autoinstall_action(true, false, true) == AutoinstallAction::Ask);
    assert!(autoinstall_action(true, false, false) == AutoinstallAction::Install);
    assert!(answer_accepts(Some("y\n")));
    assert!(answer_accepts(Some("  YES  \n")));
    assert!(answer_accepts(Some("Yes")));
    assert!(!answer_accepts(Some("no")));
    assert!(!answer_accepts(Some("")));
    assert!(!answer_accepts(None));
    assert!(matches!(install_outcome("adi.cli.kb".to_string(), true), AutoinstallResult::Installed(id) if id == "adi.cli.kb"));
    assert!(matches!(install_outcome("adi.cli.kb".to_string(), false), AutoinstallResult::Failed));
    assert_eq!(alias_note(&cli_command("tasks", "adi.tasks", &["t", "tk"])), Some(" (aliases: t, tk)".to_string()));
    assert_eq!(alias_note(&cli_command("lint", "adi.linter", &[])), None);
}

#[test]
fn interactive_menu() {
    let entries = menu_entries(&vec![cli_command("tasks", "adi.tasks", &[])]);
    assert_eq!(entries.len(), 6);
    assert!(matches!(entries[0], CommandEntry::Builtin(BuiltinCommand::Start)));
    assert!(matches!(entries[4], CommandEntry::Builtin(BuiltinCommand::SelfUpdate)));
    assert!(matches!(&entries[5], CommandEntry::Plugin { command } if command == "tasks"));
    assert!(matches!(plugin_entry_command("tasks".to_string()), Command::External(a) if a == vec!["tasks"]));
    assert!(matches!(start_command("8080"), Command::Start { port: 8080 }));
    assert!(matches!(start_command("+81"), Command::Start { port: 81 }));
    assert!(matches!(start_command("70000"), Command::Start { port: 14730 }));
    assert!(matches!(start_command("abc"), Command::Start { port: 14730 }));
    assert!(matches!(self_update_command(None), Command::SelfUpdate { force: false }));
    assert!(matches!(self_update_command(Some(true)), Command::SelfUpdate { force: true }));
    assert!(matches!(run_command(), Command::Run { plugin_id: None, args } if args.is_empty()));
    match logs_command("adi.tasks".to_string(), None, Some("x".to_string())) {
        Command::Logs { plugin_id, follow, lines, level, service } => {
            assert_eq!(plugin_id, "adi.tasks");
            assert!(!follow);
            assert_eq!(lines, 50);
            assert!(level.is_none() && service.is_none());
        }
        _ => panic!("logs"),
    }
    assert!(matches!(logs_command("p".to_string(), Some(true), Some("200".to_string())), Command::Logs { lines: 200, follow: true, .. }));
    assert_eq!(plugin_menu_keys().len(), 8);
    assert!(plugin_key_needs_input("install"));
    assert!(!plugin_key_needs_input("list"));
    assert!(matches!(plugin_command("list", None), Some(Command::Plugin { command: PluginCommand::List })));
    assert!(plugin_command("install", None).is_none());
    assert!(matches!(
        plugin_command("install", Some("adi.kb".to_string())),
        Some(Command::Plugin { command: PluginCommand::Install { plugin_id, version: None } }) if plugin_id == "adi.kb"
    ));
    assert!(matches!(
        plugin_command("search", Some("lang".to_string())),
        Some(Command::Plugin { command: PluginCommand::Search { query } }) if query == "lang"
    ));
    assert!(plugin_command("bogus", Some("x".to_string())).is_none());
}

#[test]
fn start_server_decisions() {
    let names = known_tool_names();
    assert_eq!(names.len(), 25);
    assert_eq!(names[0], "codex");
    let mut found = vec![false; names.len()];
    found[0] = true; // codex
    found[5] = true; // node
    found[10] = true; // cargo
    found[17] = true; // git
    let caps = detect_capabilities(&found);
    assert_eq!(caps.len(), 4);
    assert_eq!(capability_names(&caps, CapabilityCategory::AiAgent), vec!["codex"]);
    assert_eq!(capability_names(&caps, CapabilityCategory::Runtime), vec!["node", "cargo"]);
    assert_eq!(capability_names(&caps, CapabilityCategory::Tool), vec!["git"]);
    let entries = start_screen_entries("box", 14730, &words(&["codex"]), &words(&["node", "cargo"]));
    assert_eq!(
        entries,
        vec![
            ("Name".to_string(), "box".to_string()),
            ("URL".to_string(), "http://localhost:14730".to_string()),
            ("Agents".to_string(), "codex".to_string()),
            ("Runtimes".to_string(), "node, cargo".to_string()),
        ]
    );
    assert_eq!(start_screen_entries("box", 1, &vec![], &vec![]).len(), 2);
    assert!(needs_cocoon(&vec![("adi.tasks".to_string(), "1.0".to_string())]));
    assert!(!needs_cocoon(&vec![("adi.cocoon".to_string(), "1.0".to_string())]));
    assert_eq!(machine_name(Some("  Studio\n"), Some("host".to_string())), "Studio");
    assert_eq!(machine_name(Some(" \n"), Some("host".to_string())), "host");
    assert_eq!(machine_name(None, None), "Local Machine");
}

#[test]
fn connect_requests() {
    let mut gate = ConnectGate::new("box".to_string());
    assert!(!gate.connected());
    assert!(gate.begin_connect().is_none());
    match gate.finish_connect(Err("channel closed".to_string())) {
        ConnectReply::Error { message } => assert_eq!(message, "Failed to process request: channel closed"),
        _ => panic!("the request was not handed on"),
    }
    assert!(!gate.connected());
    assert!(matches!(gate.finish_connect(Ok(())), ConnectReply::Connecting { name } if name == "box"));
    assert!(gate.connected());
    assert!(matches!(gate.begin_connect(), Some(ConnectReply::AlreadyConnected { name }) if name == "box"));
    assert_eq!(gate.health(), ("box".to_string(), true));
}

fn option_of<'a>(ctx: &'a adi_cli::plugin_runtime::CliContextData, key: &str) -> Option<&'a JsonValue> {
    ctx.options.find(key).map(|i| ctx.options.at(i).1)
}

#[test]
fn plugin_context_from_json_text() {
    let text = r#"{"command":"tasks","args":["list","--all","x","--format","json",5,"--verbose"],"options":{"format":"text","limit":10},"cwd":"/work"}"#;
    let ctx = parse_cli_context(text, "/home/me").ok().unwrap();
    assert_eq!(ctx.command, "tasks");
    assert_eq!(ctx.subcommand, Some("list".to_string()));
    assert!(ctx.args.is_empty());
    assert_eq!(ctx.cwd, "/work");
    assert_eq!(ctx.options.len(), 4);
    assert!(matches!(option_of(&ctx, "format"), Some(JsonValue::Str(s)) if s == "json"));
    assert!(matches!(option_of(&ctx, "all"), Some(JsonValue::Str(s)) if s == "x"));
    assert!(matches!(option_of(&ctx, "verbose"), Some(JsonValue::Bool(true))));
    assert!(matches!(option_of(&ctx, "limit"), Some(JsonValue::Number(n)) if n == "10"));
}

#[test]
fn plugin_context_defaults_and_errors() {
    let ctx = parse_cli_context(r#"{"args":["run","a","b"],"cwd":7}"#, "/home/me").ok().unwrap();
    assert_eq!(ctx.command, "");
    assert_eq!(ctx.subcommand, Some("run".to_string()));
    assert_eq!(ctx.args, vec!["a".to_string(), "b".to_string()]);
    assert_eq!(ctx.cwd, "/home/me");
    assert_eq!(ctx.options.len(), 0);
    let empty = cli_context_from_json(&JsonValue::Array(vec![]), "/tmp");
    assert_eq!(empty.subcommand, None);
    assert_eq!(empty.cwd, "/tmp");
    match parse_cli_context("{not json", "/") {
        Err(InstallerError::Other(m)) => assert!(!m.is_empty()),
        _ => panic!("a syntax error is reported"),
    }
}

#[test]
fn dependency_walk_history_and_failure() {
    let (mut walk, _) = DependencyWalk::start("a", None);
    assert!(matches!(walk.on_checked(false), WalkStep::Install { .. }));
    assert!(matches!(walk.on_installed(), WalkStep::ListDependencies { .. }));
    match walk.on_dependencies(&words(&["b"])) {
        WalkStep::Check { id, dependency } => assert!(id == "b" && dependency),
        _ => panic!("b is checked"),
    }
    assert!(matches!(walk.on_checked(false), WalkStep::Install { .. }));
    assert!(matches!(walk.on_install_failed(), WalkStep::Finished));
}

#[test]
fn plugin_command_results() {
    let r = parse_cli_result(r#"{"exit_code":3,"stdout":"done\n","stderr":"warn"}"#);
    assert_eq!(r.stdout, Some("done\n".to_string()));
    assert_eq!(r.stderr, Some("warn".to_string()));
    assert_eq!(r.exit_code, 3);
    assert_eq!(parse_cli_result(r#"{"exit_code":-9223372036854775808}"#).exit_code, i64::MIN);
    assert_eq!(parse_cli_result(r#"{"exit_code":18446744073709551615}"#).exit_code, 0);
    assert_eq!(parse_cli_result(r#"{"exit_code":1.5,"stdout":7}"#).exit_code, 0);
    assert_eq!(parse_cli_result(r#"{"exit_code":1.5,"stdout":7}"#).stdout, None);
    let bad = parse_cli_result("not json");
    assert!(bad.stdout.is_none() && bad.stderr.is_none() && bad.exit_code == 0);
}
