use adi_cli::cmd_daemon::{format_duration, service_row, state_style, status_entries, stop_poll, StateStyle, StopPoll};
use adi_cli::executor::{CommandExecutor, PortBinding};
use adi_cli::health::{HealthManager, HealthStatus, HealthVerdict};
use adi_cli::protocol::{MessageFrame, ServiceConfig, ServiceInfo, ServiceState};
use adi_cli::services::{
    plugin_service_of_manifest, ChildProcess, ManagedService, ServiceError, ServiceManager, ServiceRegistry, StopAction,
};

#[test]
fn test_executor_creation() {
    let executor = CommandExecutor::new("adi".to_string(), "adi-root".to_string());
    assert_eq!(executor.regular_user(), "adi");
    assert_eq!(executor.privileged_user(), "adi-root");
}

#[test]
fn test_health_status_healthy() {
    let status = HealthStatus {
        total: 3,
        running: 3,
        stopped: 0,
        failed: 0,
        unhealthy: Vec::new(),
    };

    assert!(status.is_healthy());
}

#[test]
fn test_health_status_unhealthy() {
    let status = HealthStatus {
        total: 3,
        running: 2,
        stopped: 0,
        failed: 1,
        unhealthy: vec!["failed-service".to_string()],
    };

    assert!(!status.is_healthy());
}

#[test]
fn test_service_state() {
    assert!(ServiceState::Running.is_running());
    assert!(!ServiceState::Stopped.is_running());
    assert!(ServiceState::Stopped.is_stopped());
    assert!(ServiceState::Failed.is_stopped());
    assert!(!ServiceState::Running.is_stopped());
}

#[test]
fn test_service_config_builder() {
    let config = ServiceConfig::new("my-service")
        .args(&["--flag", "value"])
        .env("RUST_LOG", "info")
        .working_dir("/var/lib/service")
        .restart_on_failure(true)
        .max_restarts(5)
        .privileged(false);

    assert_eq!(config.command, "my-service");
    assert_eq!(config.args, vec!["--flag", "value"]);
    assert!(config
        .env
        .iter()
        .any(|(k, v)| k == "RUST_LOG" && v == "info"));
    assert_eq!(config.working_dir, Some("/var/lib/service".to_string()));
    assert!(config.restart_on_failure);
    assert_eq!(config.max_restarts, 5);
    assert!(!config.privileged);
}

#[test]
fn test_service_info() {
    let config = ServiceConfig::new("test");
    let service = ManagedService::new(config);

    assert_eq!(service.state, ServiceState::Stopped);
    assert!(service.pid().is_none());
    assert!(service.uptime_secs(0).is_none());
}

#[test]
fn test_service_registry() {
    let registry = ServiceRegistry::new();
    assert!(registry.get_config("hive").is_some());
    assert!(registry.get_config("indexer").is_some());
    assert!(registry.get_config("nonexistent").is_none());
}

#[test]
fn test_service_manager_list() {
    let manager = ServiceManager::new();
    let list = manager.list(0);
    assert!(list.is_empty()); // No services started
}

#[test]
fn builtin_service_configs() {
    let registry = ServiceRegistry::new();
    let hive = registry.get_config("hive").unwrap();
    assert_eq!(hive.command, "adi");
    assert_eq!(hive.args, vec!["run", "adi.hive", "serve"]);
    assert_eq!(hive.env, vec![("RUST_LOG".to_string(), "info".to_string())]);
    assert!(hive.restart_on_failure);
    assert_eq!(hive.max_restarts, 3);
    let proxy = registry.get_config("llm-proxy").unwrap();
    assert_eq!(proxy.args, vec!["run", "adi.llm-proxy", "serve"]);
    let mut names = registry.list();
    names.sort();
    assert_eq!(names, vec!["hive", "indexer", "llm-proxy"]);
}

#[test]
fn registry_register_then_get() {
    let mut registry = ServiceRegistry::new();
    registry.register("cocoon".to_string(), ServiceConfig::new("cocoon-bin").max_restarts(1));
    let c = registry.get_config("cocoon").unwrap();
    assert_eq!(c.command, "cocoon-bin");
    assert_eq!(c.max_restarts, 1);
    registry.register("hive".to_string(), ServiceConfig::new("other"));
    assert_eq!(registry.get_config("hive").unwrap().command, "other");
    assert_eq!(registry.list().len(), 4);
}

#[test]
fn start_and_stop_a_service() {
    let mut m = ServiceManager::new();
    let config = m.begin_start("hive", None).ok().unwrap();
    assert_eq!(config.args, vec!["run", "adi.hive", "serve"]);
    assert_eq!(m.get("hive", 0).unwrap().state, ServiceState::Starting);
    assert!(m.finish_start("hive", Ok(ChildProcess { id: Some(42) }), 100).is_ok());
    let info = m.get("hive", 160).unwrap();
    assert_eq!(info.state, ServiceState::Running);
    assert_eq!(info.pid, Some(42));
    assert_eq!(info.uptime_secs, Some(60));
    match m.begin_start("hive", None) {
        Err(ServiceError::AlreadyRunning { name }) => assert_eq!(name, "hive"),
        _ => panic!("a running service must not start twice"),
    }
    match m.begin_stop("hive", false) {
        Ok(StopAction::Terminate { pid }) => assert_eq!(pid, Some(42)),
        _ => panic!("a running service is asked to terminate"),
    }
    assert_eq!(m.get("hive", 160).unwrap().state, ServiceState::Stopping);
    m.finish_stop("hive");
    let info = m.get("hive", 200).unwrap();
    assert_eq!(info.state, ServiceState::Stopped);
    assert_eq!(info.pid, None);
    assert_eq!(info.uptime_secs, None);
    match m.begin_stop("hive", true) {
        Ok(StopAction::AlreadyStopped) => {}
        _ => panic!("a stopped service needs no stopping"),
    }
}

#[test]
fn service_manager_errors() {
    let mut m = ServiceManager::new();
    match m.begin_start("nonexistent", None) {
        Err(e) => {
            assert!(matches!(e, ServiceError::UnknownService { .. }));
            assert_eq!(e.message(), "Unknown service: nonexistent");
        }
        _ => panic!("unknown service"),
    }
    match m.begin_stop("nonexistent", false) {
        Err(ServiceError::UnknownService { name }) => assert_eq!(name, "nonexistent"),
        _ => panic!("unknown service"),
    }
    m.begin_start("indexer", None).ok().unwrap();
    match m.finish_start("indexer", Err("No such file".to_string()), 5) {
        Err(e) => assert_eq!(e.message(), "No such file"),
        Ok(()) => panic!("spawn failed"),
    }
    let info = m.get("indexer", 5).unwrap();
    assert_eq!(info.state, ServiceState::Failed);
    assert_eq!(info.last_error, Some("No such file".to_string()));
    let custom = ServiceConfig::new("custom-bin");
    m.begin_start("custom", Some(custom)).ok().unwrap();
    m.finish_start("custom", Ok(ChildProcess { id: Some(7) }), 0).ok().unwrap();
    let err = m.begin_start("custom", None).err().unwrap();
    assert_eq!(err.message(), "Service 'custom' is already running");
}

#[test]
fn death_restarts_until_limit_then_fails() {
    let mut m = ServiceManager::new();
    m.begin_start("hive", None).ok().unwrap();
    m.finish_start("hive", Ok(ChildProcess { id: Some(1) }), 0).ok().unwrap();
    for round in 1..=3u32 {
        let c = m.handle_death("hive", true, 3);
        assert!(c.is_some(), "restart {} is allowed", round);
        let info = m.get("hive", 0).unwrap();
        assert_eq!(info.state, ServiceState::Starting);
        assert_eq!(info.restarts, round);
        m.record_respawn("hive", ChildProcess { id: Some(10 + round) }, 0);
        assert_eq!(m.get("hive", 0).unwrap().state, ServiceState::Running);
    }
    assert!(!m.should_restart("hive"));
    assert!(m.handle_death("hive", true, 3).is_none());
    let info = m.get("hive", 0).unwrap();
    assert_eq!(info.state, ServiceState::Failed);
    assert_eq!(info.restarts, 3);
    assert_eq!(info.last_error, Some("Process died and max restarts exceeded".to_string()));
}

#[test]
fn health_manager_decisions() {
    let hm = HealthManager::new();
    assert_eq!(hm.check_interval_ms, 5000);
    assert_eq!(HealthManager::new().with_interval(250).check_interval_ms, 250);
    assert!(HealthManager::verdict(None, true) == HealthVerdict::NoPid);
    assert!(HealthManager::verdict(Some(3), true) == HealthVerdict::Healthy);
    assert!(HealthManager::verdict(Some(3), false) == HealthVerdict::Died);
    let mut m = ServiceManager::new();
    m.begin_start("hive", None).ok().unwrap();
    m.finish_start("hive", Ok(ChildProcess { id: None }), 0).ok().unwrap();
    assert!(hm.act(&mut m, "hive", HealthVerdict::NoPid, true, 3).is_none());
    let info = m.get("hive", 0).unwrap();
    assert_eq!(info.state, ServiceState::Failed);
    assert_eq!(info.last_error, Some("Process has no PID".to_string()));
}

#[test]
fn health_summary_counts_states() {
    let mut m = ServiceManager::new();
    m.begin_start("hive", None).ok().unwrap();
    m.finish_start("hive", Ok(ChildProcess { id: Some(1) }), 0).ok().unwrap();
    m.begin_start("indexer", None).ok().unwrap();
    m.finish_start("indexer", Err("boom".to_string()), 0).err().unwrap();
    let status = HealthStatus::from_services(&m);
    assert_eq!(status.total, 2);
    assert_eq!(status.running, 1);
    assert_eq!(status.failed, 1);
    assert_eq!(status.unhealthy, vec!["indexer".to_string()]);
    assert!(!status.is_healthy());
    let running = m.running_services();
    assert_eq!(running, vec![("hive".to_string(), Some(1), true, 3)]);
}

#[test]
fn frame_roundtrip() {
    let payload = vec![1u8, 2, 3, 4, 5];
    let frame = MessageFrame::encode_payload(&payload);
    assert_eq!(frame.len(), 9);
    assert_eq!(&frame[..4], &[5, 0, 0, 0]);
    let header = [frame[0], frame[1], frame[2], frame[3]];
    assert_eq!(MessageFrame::read_length(&header), 5);
    assert_eq!(&frame[4..], &payload[..]);
    assert_eq!(MessageFrame::read_length(&[0x00, 0x01, 0x00, 0x00]), 256);
}

#[test]
fn durations_in_human_form() {
    assert_eq!(format_duration(0), "0s");
    assert_eq!(format_duration(59), "59s");
    assert_eq!(format_duration(60), "1m 0s");
    assert_eq!(format_duration(3599), "59m 59s");
    assert_eq!(format_duration(3600), "1h 0m");
    assert_eq!(format_duration(86399), "23h 59m");
    assert_eq!(format_duration(90061), "1d 1h");
}

#[test]
fn service_rows_and_status_screen() {
    let mut info = ServiceInfo::new("hive");
    assert_eq!(service_row(&info), vec!["hive", "stopped", "-", "-", "0"]);
    info.state = ServiceState::Running;
    info.pid = Some(123);
    info.uptime_secs = Some(3700);
    info.restarts = 2;
    assert_eq!(service_row(&info), vec!["hive", "running", "123", "1h 1m", "2"]);
    assert!(state_style("running") == StateStyle::Success);
    assert!(state_style("failed") == StateStyle::Error);
    assert!(state_style("paused") == StateStyle::Plain);
    let entries = status_entries("1.2.3", 65, "/run/adi.sock", "/run/adi.pid", "/var/log/adi.log");
    assert_eq!(entries[0], ("Status".to_string(), "running".to_string()));
    assert_eq!(entries[2], ("Uptime".to_string(), "1m 5s".to_string()));
    assert_eq!(entries[5], ("Log File".to_string(), "/var/log/adi.log".to_string()));
    assert!(stop_poll(0, false) == StopPoll::Stopped);
    assert!(stop_poll(0, true) == StopPoll::WaitAndLook);
    assert!(stop_poll(49, true) == StopPoll::WaitAndGiveUp);
}

#[test]
fn executor_commands() {
    let ex = CommandExecutor::new("adi".to_string(), "adi-root".to_string());
    let args = vec!["status".to_string()];
    assert_eq!(ex.run_args("git", &args), vec!["-u", "adi", "git", "status"]);
    assert_eq!(ex.sudo_run_args("ls", &args), vec!["-u", "adi-root", "sudo", "ls", "status"]);
    match ex.bind_port(80, 8080, "linux") {
        PortBinding::Iptables { args } => assert_eq!(
            args,
            vec!["-t", "nat", "-A", "PREROUTING", "-p", "tcp", "--dport", "80", "-j", "REDIRECT", "--to-port", "8080"]
        ),
        _ => panic!("linux uses iptables"),
    }
    match ex.bind_port(443, 8443, "macos") {
        PortBinding::Pfctl { rule, rule_path } => {
            assert_eq!(rule, "rdr pass on lo0 inet proto tcp from any to any port 443 -> 127.0.0.1 port 8443");
            assert_eq!(rule_path, "/tmp/adi-pf-443.conf");
        }
        _ => panic!("macos uses pfctl"),
    }
    assert!(matches!(ex.bind_port(8080, 9090, "linux"), PortBinding::NotPrivileged));
    assert!(matches!(ex.bind_port(80, 8080, "windows"), PortBinding::Unsupported));
    assert_eq!(
        ex.unbind_port_args(80, "linux").unwrap(),
        vec!["-t", "nat", "-D", "PREROUTING", "-p", "tcp", "--dport", "80", "-j", "REDIRECT"]
    );
    assert!(ex.unbind_port_args(80, "macos").is_none());
}

#[test]
fn plugin_services_from_manifests() {
    let full = "[package]\nname = \"adi-hive\"\n\n[package.metadata.plugin.service]\nname = \"hive\"\ncommand = \"daemon\"\n";
    assert_eq!(plugin_service_of_manifest(full), Ok(Some(("hive".to_string(), "daemon".to_string()))));
    let default_command = "[package.metadata.plugin.service]\nname = \"indexer\"\n";
    assert_eq!(plugin_service_of_manifest(default_command), Ok(Some(("indexer".to_string(), "serve".to_string()))));
    assert_eq!(plugin_service_of_manifest("[package]\nname = \"x\"\n"), Ok(None));
    assert_eq!(
        plugin_service_of_manifest("[package.metadata.plugin.service]\ncommand = \"run\"\n"),
        Err("Service missing name".to_string())
    );
    assert_eq!(
        plugin_service_of_manifest("[package.metadata.plugin.service]\nname = 5\n"),
        Err("Service missing name".to_string())
    );
    assert!(plugin_service_of_manifest("[package\n").is_err());
}
