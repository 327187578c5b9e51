use adi_cli::toml_doc::TomlValue;
use adi_cli::component::{ComponentInfo, InstallStatus};
use adi_cli::components::{create_default_registry, BaseIndexerComponent, Component, LlmCodeIndexerHttp, TasksHttp};
use adi_cli::error::InstallerError;
use adi_cli::http_server::{HttpServer, HttpServerConfig};
use adi_cli::init::{
    available_languages, installed_language, installed_translation_code, manifest_language_name, language_after_prompt, language_menu_items, normalize_locale,
    prompt_offers_choice, resolve_language, resolve_theme, should_check_translation, translation_plugin_id,
    translation_stamp_name, LanguageChoice, PluginListing,
};
use adi_cli::installer::{
    finish_message, progress_message, update_after_uninstall, ComponentOp, InstallStep, Installer, UpdateStep,
};
use adi_cli::json::JsonValue;
use adi_cli::mcp::{
    classify_method, method_not_found, missing_parameter, parse_error, prompt_not_found, protocol_version,
    resource_read_failed, resources_read_response, tool_call_failed, tools_call_response, tools_list_response,
    McpAction, McpMethod, McpSession,
};
use adi_cli::project_config::{Project, ProjectConfig};
use adi_cli::registry::ComponentRegistry;
use adi_cli::user_config::UserConfig;

fn info(name: &str, deps: &[&str]) -> ComponentInfo {
    ComponentInfo {
        name: name.to_string(),
        version: "1.0.0".to_string(),
        description: format!("{} component", name),
        dependencies: deps.iter().map(|d| d.to_string()).collect(),
    }
}

#[test]
fn test_parse_repository() {
    let config = ProjectConfig {
        project: Project { repository: "https://github.com/adi-family/adi-cli".to_string() },
    };
    let (owner, repo) = config.parse_repository();
    assert_eq!(owner, "adi-family");
    assert_eq!(repo, "adi-cli");
}

#[test]
fn repository_with_trailing_slash() {
    let config = ProjectConfig {
        project: Project { repository: "https://github.com/adi-family/cli//".to_string() },
    };
    let (owner, repo) = config.parse_repository();
    assert_eq!(owner, "adi-family");
    assert_eq!(repo, "cli");
}

#[test]
fn user_config_defaults() {
    let c = UserConfig::default();
    assert!(c.language.is_none());
    assert!(c.theme.is_none());
    assert!(UserConfig::is_first_run(false));
    assert!(!UserConfig::is_first_run(true));
}

#[test]
fn http_server_defaults() {
    let config = HttpServerConfig::default();
    assert_eq!(config.port, 8080);
    assert_eq!(config.host, "127.0.0.1");
    let server = HttpServer::new(config);
    assert_eq!(server.address(), "127.0.0.1:8080");
    let other = HttpServer::new(HttpServerConfig { port: 3000, host: "0.0.0.0".to_string() });
    assert_eq!(other.address(), "0.0.0.0:3000");
}

#[test]
fn language_priority() {
    match resolve_language(Some("de-DE"), Some("fr-FR".to_string()), None, None, true) {
        LanguageChoice::Chosen(l) => assert_eq!(l, "de-DE"),
        _ => panic!("the flag wins"),
    }
    match resolve_language(None, Some("fr-FR".to_string()), Some("uk-UA".to_string()), None, true) {
        LanguageChoice::Chosen(l) => assert_eq!(l, "fr-FR"),
        _ => panic!("the environment comes next"),
    }
    match resolve_language(None, None, Some("uk-UA".to_string()), Some("en_GB.UTF-8".to_string()), true) {
        LanguageChoice::Chosen(l) => assert_eq!(l, "uk-UA"),
        _ => panic!("then the saved preference"),
    }
    match resolve_language(None, None, None, Some("zh_CN.UTF-8".to_string()), true) {
        LanguageChoice::Chosen(l) => assert_eq!(l, "zh-CN"),
        _ => panic!("then the system locale"),
    }
    assert!(matches!(resolve_language(None, None, None, None, true), LanguageChoice::Prompt));
    assert!(matches!(resolve_language(None, None, None, None, false), LanguageChoice::Default));
    assert_eq!(normalize_locale("ja_JP"), "ja-JP");
    assert_eq!(resolve_theme(None, Some("scarlet".to_string()), "indigo"), "scarlet");
    assert_eq!(resolve_theme(Some("emerald".to_string()), Some("scarlet".to_string()), "indigo"), "emerald");
    assert_eq!(resolve_theme(None, None, "indigo"), "indigo");
}

#[test]
fn translation_plugins() {
    assert_eq!(translation_plugin_id("es-ES"), "adi.cli.es-ES");
    assert!(should_check_translation(None));
    assert!(!should_check_translation(Some(3600)));
    assert!(should_check_translation(Some(86401)));
    let plugins = vec![
        PluginListing {
            id: "adi.cli.de-DE".to_string(),
            name: "ADI CLI - Deutsch".to_string(),
            plugin_type: "translation".to_string(),
        },
        PluginListing {
            id: "adi.cli.en-US".to_string(),
            name: "ADI CLI - English".to_string(),
            plugin_type: "translation".to_string(),
        },
        PluginListing { id: "adi.tasks".to_string(), name: "Tasks".to_string(), plugin_type: "tool".to_string() },
        PluginListing {
            id: "adi.cli.fr-FR".to_string(),
            name: "Francais".to_string(),
            plugin_type: "translation".to_string(),
        },
    ];
    let langs = available_languages(&plugins);
    assert_eq!(
        langs,
        vec![
            ("en-US".to_string(), "English".to_string()),
            ("de-DE".to_string(), "Deutsch".to_string()),
            ("fr-FR".to_string(), "Francais".to_string()),
        ]
    );
    assert_eq!(language_menu_items(&langs)[1], "Deutsch (de-DE)");
    assert_eq!(installed_translation_code("adi.cli.ko-KR"), Some("ko-KR".to_string()));
    assert_eq!(installed_translation_code("adi.cli.en-US"), None);
    assert_eq!(installed_translation_code("adi.tasks"), None);
    assert_eq!(translation_stamp_name("adi.cli.de-DE"), ".adi.cli.de-DE.last-check");
    assert!(prompt_offers_choice(&langs));
    assert_eq!(language_after_prompt(&langs, 2), "fr-FR");
    let english_only = available_languages(&vec![]);
    assert!(!prompt_offers_choice(&english_only));
    assert_eq!(language_after_prompt(&english_only, 0), "en-US");
}

#[test]
fn component_registry_and_installer() {
    let components = vec![info("indexer-cli", &[]), info("indexer-http", &["indexer-cli"]), info("tasks-http", &[])];
    let registry = create_default_registry(&components);
    assert!(registry.contains("indexer-http"));
    assert!(!registry.contains("tasks-cli"));
    let mut names = registry.names();
    names.sort();
    assert_eq!(names, vec!["indexer-cli", "indexer-http", "tasks-http"]);
    assert_eq!(registry.list().len(), 3);
    match registry.get("missing") {
        Err(InstallerError::ComponentNotFound(n)) => assert_eq!(n, "missing"),
        _ => panic!("missing component"),
    }
    let http = LlmCodeIndexerHttp::new(&registry, "indexer-http-bin".to_string());
    assert_eq!(http.info().name, "indexer-http");
    assert!(http.status(true) == InstallStatus::Installed);
    assert!(http.status(false) == InstallStatus::NotInstalled);
    let tasks = TasksHttp::new(&registry, "tasks-http-bin".to_string());
    assert_eq!(tasks.info().dependencies.len(), 0);
    let base = BaseIndexerComponent::new("indexer-cli", "indexer".to_string(), &registry);
    assert_eq!(base.binary_name, "indexer");
    let installer = Installer::new(registry);
    assert!(installer.check_dependencies("indexer-http", &vec![InstallStatus::Installed]).is_ok());
    match installer.check_dependencies("indexer-http", &vec![InstallStatus::NotInstalled]) {
        Err(e) => assert_eq!(
            e.message(),
            "Dependency 'indexer-cli' required by 'indexer-http' is not installed"
        ),
        Ok(()) => panic!("dependency missing"),
    }
    match installer.check_dependencies("nope", &vec![]) {
        Err(e) => assert_eq!(e.message(), "Component 'nope' not found"),
        Ok(()) => panic!("unknown component"),
    }
}

#[test]
fn component_registry_replaces_by_name() {
    let mut registry = ComponentRegistry::new();
    registry.register(info("a", &[]));
    registry.register(ComponentInfo { version: "2.0.0".to_string(), ..info("a", &[]) });
    assert_eq!(registry.get("a").ok().unwrap().version, "2.0.0");
    assert_eq!(registry.list().len(), 1);
}

#[test]
fn installer_error_messages() {
    let e = InstallerError::InstallationFailed { component: "cli".to_string(), reason: "boom".to_string() };
    assert_eq!(e.message(), "Installation failed for 'cli': boom");
    assert_eq!(InstallerError::PluginNotFound { id: "x".to_string() }.message(), "Plugin not found: x");
    assert_eq!(InstallerError::Other("plain".to_string()).message(), "plain");
    assert_eq!(InstallerError::AlreadyInstalled("c".to_string()).message(), "Component 'c' is already installed");
}

#[test]
fn mcp_methods_and_errors() {
    assert!(classify_method("initialize") == McpMethod::Initialize);
    assert!(classify_method("tools/call") == McpMethod::ToolsCall);
    assert!(classify_method("resources/read") == McpMethod::ResourcesRead);
    assert!(classify_method("ping") == McpMethod::Ping);
    assert!(classify_method("bogus") == McpMethod::Unknown);
    let e = parse_error("expected value");
    assert_eq!((e.code, e.message.as_str()), (-32700, "Parse error: expected value"));
    let e = method_not_found("bogus");
    assert_eq!((e.code, e.message.as_str()), (-32601, "Method not found: bogus"));
    let e = prompt_not_found();
    assert_eq!((e.code, e.message.as_str()), (-32601, "Prompt not found"));
    let e = missing_parameter("name");
    assert_eq!((e.code, e.message.as_str()), (-32602, "Missing 'name' parameter"));
    assert_eq!(tool_call_failed("x").message, "Tool call failed: x");
    assert_eq!(resource_read_failed("y").code, -32000);
    assert_eq!(protocol_version(None), "2024-11-05");
    assert_eq!(protocol_version(Some("2025-01-01")), "2025-01-01");
    let mut session = McpSession::new();
    assert!(!session.initialized());
    session.on_request(McpMethod::Ping);
    assert!(!session.initialized());
    session.on_request(McpMethod::Initialize);
    assert!(session.initialized());
}

#[test]
fn installed_language_names() {
    let manifest = "[plugin]\nid = \"adi.cli.de-DE\"\n\n[translation]\nlanguage_name = \"Deutsch\"\n";
    assert_eq!(installed_language("de-DE", Some(manifest)), ("de-DE".to_string(), "Deutsch".to_string()));
    assert_eq!(installed_language("fr-FR", Some("[translation]\nlocale = \"fr\"\n")), ("fr-FR".to_string(), "fr-FR".to_string()));
    assert_eq!(installed_language("es-ES", Some("not = = toml")), ("es-ES".to_string(), "es-ES".to_string()));
    assert_eq!(installed_language("it-IT", None), ("it-IT".to_string(), "it-IT".to_string()));
}

#[test]
fn manifest_language_name_from_parsed_manifest() {
    let manifest = TomlValue::Table(vec![(
        "translation".to_string(),
        TomlValue::Table(vec![("language_name".to_string(), TomlValue::Str("Polski".to_string()))]),
    )]);
    assert_eq!(manifest_language_name(&manifest), Some("Polski".to_string()));
    let wrong_type = TomlValue::Table(vec![(
        "translation".to_string(),
        TomlValue::Table(vec![("language_name".to_string(), TomlValue::Integer(3))]),
    )]);
    assert_eq!(manifest_language_name(&wrong_type), None);
    assert_eq!(manifest_language_name(&TomlValue::Str("x".to_string())), None);
}

#[test]
fn component_installation_steps() {
    let components = vec![
        info("indexer-cli", &[]),
        info("indexer-http", &["indexer-cli", "tasks-http"]),
        info("tasks-http", &[]),
        info("orphan", &["ghost"]),
    ];
    let installer = Installer::new(create_default_registry(&components));
    let (mut run, step) = installer.start_install("indexer-http");
    assert!(matches!(step, InstallStep::CheckDependency { ref name } if name == "indexer-cli"));
    assert!(matches!(run.on_dependency_status(Ok(InstallStatus::Installed)), InstallStep::CheckDependency { ref name } if name == "tasks-http"));
    assert!(matches!(run.on_dependency_status(Ok(InstallStatus::UpdateAvailable)), InstallStep::ValidatePrerequisites));
    match run.on_prerequisites(Ok(vec!["low disk".to_string()])) {
        InstallStep::Install { warnings, progress } => {
            assert_eq!(warnings, vec!["low disk".to_string()]);
            assert_eq!(progress, "Installing indexer-http");
        }
        _ => panic!("the component is installed next"),
    }
    match run.on_installed(Ok(())) {
        InstallStep::Done { result, message } => {
            assert!(result.is_ok());
            assert_eq!(message, Some("indexer-http installed successfully".to_string()));
        }
        _ => panic!("the installation is over"),
    }

    let (mut run, _) = installer.start_install("indexer-http");
    match run.on_dependency_status(Ok(InstallStatus::NotInstalled)) {
        InstallStep::Done { result: Err(e), message: None } => {
            assert_eq!(e.message(), "Dependency 'indexer-cli' required by 'indexer-http' is not installed")
        }
        _ => panic!("a missing dependency ends the installation"),
    }
    match installer.start_install("orphan").1 {
        InstallStep::Done { result: Err(InstallerError::DependencyMissing { dependency, .. }), .. } => {
            assert_eq!(dependency, "ghost")
        }
        _ => panic!("an unregistered dependency ends the installation"),
    }
    assert!(matches!(
        installer.start_install("nope").1,
        InstallStep::Done { result: Err(InstallerError::ComponentNotFound(_)), message: None }
    ));
    let (mut run, step) = installer.start_install("tasks-http");
    assert!(matches!(step, InstallStep::ValidatePrerequisites));
    assert!(matches!(
        run.on_prerequisites(Err(InstallerError::Other("no space".to_string()))),
        InstallStep::Done { result: Err(InstallerError::Other(_)), message: None }
    ));
    let (mut run, _) = installer.start_install("tasks-http");
    let _ = run.on_prerequisites(Ok(vec![]));
    match run.on_installed(Err(InstallerError::Io("disk full".to_string()))) {
        InstallStep::Done { message: Some(m), .. } => assert_eq!(m, "Failed: IO error: disk full"),
        _ => panic!("the failure is shown"),
    }
}

#[test]
fn component_operations_shown() {
    let installer = Installer::new(create_default_registry(&vec![info("tasks-http", &[])]));
    assert_eq!(installer.begin(ComponentOp::Uninstall, "tasks-http").ok(), Some("Uninstalling tasks-http".to_string()));
    assert!(matches!(installer.begin(ComponentOp::Update, "x"), Err(InstallerError::ComponentNotFound(_))));
    assert_eq!(progress_message(ComponentOp::Update, "a"), "Updating a");
    assert_eq!(finish_message(ComponentOp::Uninstall, "a", &Ok(())), "a uninstalled successfully");
    assert_eq!(finish_message(ComponentOp::Update, "a", &Ok(())), "a updated successfully");
    assert!(matches!(update_after_uninstall(Ok(())), UpdateStep::Install));
    assert!(matches!(update_after_uninstall(Err(InstallerError::Io("x".to_string()))), UpdateStep::Done(Err(_))));
}

#[test]
fn indexer_component_locations_and_source() {
    let registry = create_default_registry(&vec![info("indexer-cli", &[])]);
    let base = BaseIndexerComponent::new("indexer-cli", "adi-indexer-cli".to_string(), &registry);
    assert_eq!(base.binary_location(), vec!["adi", "bin", "adi-indexer-cli"]);
    assert_eq!(base.version_location(), vec!["adi", "indexer-cli", ".version"]);
    let config = ProjectConfig { project: Project { repository: "https://github.com/adi-family/adi-cli".to_string() } };
    let source = base.release_source(&config);
    assert_eq!(source.tag_prefix(), Some(&"indexer-".to_string()));
    assert_eq!(source.releases_url(), "https://api.github.com/repos/adi-family/adi-cli/releases");
}

fn obj(members: &[(&str, JsonValue)]) -> JsonValue {
    JsonValue::Object(members.iter().map(|(k, v)| (k.to_string(), adi_cli::json::copy_json(v))).collect())
}

#[test]
fn mcp_requests_answered() {
    let mut session = McpSession::new();
    let params = obj(&[("protocolVersion", JsonValue::Str("2025-03-26".to_string()))]);
    match session.on_json_request(JsonValue::Number("1".to_string()), "initialize", &params, "0.8.8") {
        McpAction::Respond(r) => {
            assert!(matches!(r.id, JsonValue::Number(ref n) if n == "1"));
            match r.outcome {
                Ok(JsonValue::Object(m)) => {
                    assert_eq!(m.len(), 3);
                    assert!(matches!(&m[0].1, JsonValue::Str(v) if v == "2025-03-26"));
                }
                _ => panic!("initialize answers with the server's description"),
            }
        }
        _ => panic!("initialize is answered"),
    }
    assert!(session.initialized());
    let call = obj(&[("name", JsonValue::Str("search".to_string()))]);
    match session.on_json_request(JsonValue::Null, "tools/call", &call, "0.8.8") {
        McpAction::CallTool { name, arguments, .. } => {
            assert_eq!(name, "search");
            assert!(matches!(arguments, JsonValue::Object(ref m) if m.is_empty()));
        }
        _ => panic!("the tool is called"),
    }
    match session.on_json_request(JsonValue::Null, "tools/call", &obj(&[]), "0.8.8") {
        McpAction::Respond(r) => assert!(matches!(r.outcome, Err(ref e) if e.code == -32602 && e.message == "Missing 'name' parameter")),
        _ => panic!("a call without a name is refused"),
    }
    match session.on_json_request(JsonValue::Null, "bogus", &JsonValue::Null, "0.8.8") {
        McpAction::Respond(r) => assert!(matches!(r.outcome, Err(ref e) if e.message == "Method not found: bogus")),
        _ => panic!("an unknown method is refused"),
    }
    assert!(matches!(session.on_json_request(JsonValue::Null, "resources/list", &JsonValue::Null, "0.8.8"), McpAction::ListResources { .. }));
    let listed = tools_list_response(JsonValue::Null, Ok("[{\"name\":\"t\"}]".to_string()));
    assert!(matches!(listed.outcome, Ok(JsonValue::Object(ref m)) if m[0].0 == "tools" && matches!(m[0].1, JsonValue::Array(ref a) if a.len() == 1)));
    let none = tools_list_response(JsonValue::Null, Err("no plugins".to_string()));
    assert!(matches!(none.outcome, Ok(JsonValue::Object(ref m)) if matches!(m[0].1, JsonValue::Array(ref a) if a.is_empty())));
    let plain = tools_call_response(JsonValue::Null, Ok("plain text".to_string()));
    assert!(matches!(plain.outcome, Ok(JsonValue::Object(ref m)) if m[0].0 == "content"));
    let failed = tools_call_response(JsonValue::Null, Err("boom".to_string()));
    assert!(matches!(failed.outcome, Err(ref e) if e.code == -32000 && e.message == "Tool call failed: boom"));
    let read = resources_read_response(JsonValue::Null, "file:///a", Ok("hello".to_string()));
    match read.outcome {
        Ok(JsonValue::Object(m)) => match &m[0].1 {
            JsonValue::Array(items) => assert!(matches!(&items[0], JsonValue::Object(c) if c.len() == 2)),
            _ => panic!("contents is a list"),
        },
        _ => panic!("the resource is answered"),
    }
}
