use embystream::config::{Backend, Frontend, Http2, StreamMode};
use embystream::startup::{
    apply_ssl_overrides, parse_env_bool, runs_backend, runs_frontend, startup_plan, stream_log_dir, validate_dual_mode_ports,
    web_runtime_log_dir, web_studio_enabled, LoadOutcome, StartupPlan,
};
use embystream::wizard::build_new_raw_skeleton;

#[test]
fn parses_truthy_values_case_and_space_insensitively() {
    for value in ["1", "true", "TRUE", " yes ", "On", "enable", "ENABLED"] {
        assert_eq!(parse_env_bool(value), Some(true), "value = {value:?}");
    }
}

#[test]
fn parses_falsy_values_case_and_space_insensitively() {
    for value in ["0", "false", "FALSE", " no ", "Off", "disable", "DISABLED"] {
        assert_eq!(parse_env_bool(value), Some(false), "value = {value:?}");
    }
}

#[test]
fn returns_none_for_unrecognized_values() {
    for value in ["", "maybe", "2", "web"] {
        assert_eq!(parse_env_bool(value), None, "value = {value:?}");
    }
}

#[test]
fn environment_overrides_web_flag() {
    assert!(web_studio_enabled(Some("yes"), None, false));
    assert!(!web_studio_enabled(Some("off"), Some("on"), true));
    assert!(web_studio_enabled(None, Some("1"), false));
    assert!(web_studio_enabled(Some("maybe"), Some("0"), true));
    assert!(!web_studio_enabled(Some("maybe"), Some("1"), false));
    assert!(web_studio_enabled(None, None, true));
    assert!(!web_studio_enabled(None, None, false));
}

fn frontend(port: u16) -> Frontend {
    Frontend {
        listen_port: port,
        check_file_existence: true,
        path_rewrites: vec![],
        anti_reverse_proxy: Default::default(),
        device_id_exempt_clients: vec![],
    }
}

fn backend(port: u16) -> Backend {
    Backend {
        listen_port: port,
        base_url: "https://b.example.com".to_string(),
        port: "443".to_string(),
        path: "stream".to_string(),
        check_file_existence: true,
        problematic_clients: vec![],
    }
}

#[test]
fn dual_mode_refuses_a_shared_port() {
    let mut raw = build_new_raw_skeleton(StreamMode::Dual);
    raw.frontend = Some(frontend(60001));
    raw.backend = Some(backend(60001));
    assert_eq!(
        validate_dual_mode_ports(&raw),
        Err("Dual mode port conflict: frontend & backend cannot both use 60001.".to_string())
    );
    raw.backend = Some(backend(60002));
    assert_eq!(validate_dual_mode_ports(&raw), Ok(()));
    let mut single = build_new_raw_skeleton(StreamMode::Frontend);
    single.frontend = Some(frontend(1));
    single.backend = Some(backend(1));
    assert_eq!(validate_dual_mode_ports(&single), Ok(()));
}

#[test]
fn gateways_by_mode() {
    assert!(runs_frontend(StreamMode::Frontend) && !runs_backend(StreamMode::Frontend));
    assert!(!runs_frontend(StreamMode::Backend) && runs_backend(StreamMode::Backend));
    assert!(runs_frontend(StreamMode::Dual) && runs_backend(StreamMode::Dual));
}

#[test]
fn log_directories() {
    assert_eq!(web_runtime_log_dir("/var/log/web", Some("./logs")), "/var/log/web");
    assert_eq!(web_runtime_log_dir("", Some("/srv/logs")), "/srv/logs");
    assert_eq!(web_runtime_log_dir("", None), "web-config/logs");
    assert_eq!(stream_log_dir(Some("/srv/logs")), "/srv/logs");
    assert_eq!(stream_log_dir(None), "./logs");
}

#[test]
fn startup_plans() {
    assert_eq!(
        startup_plan(LoadOutcome::Loaded, false),
        StartupPlan { start_web: false, start_stream: true, exit_code: None, stream_failure_ends_run: true }
    );
    assert_eq!(
        startup_plan(LoadOutcome::TemplateCreated, false),
        StartupPlan { start_web: false, start_stream: false, exit_code: Some(0), stream_failure_ends_run: true }
    );
    assert_eq!(
        startup_plan(LoadOutcome::Failed, false),
        StartupPlan { start_web: false, start_stream: false, exit_code: Some(1), stream_failure_ends_run: true }
    );
    assert_eq!(
        startup_plan(LoadOutcome::Failed, true),
        StartupPlan { start_web: true, start_stream: false, exit_code: None, stream_failure_ends_run: false }
    );
}

#[test]
fn ssl_overrides_replace_the_given_paths() {
    let mut raw = build_new_raw_skeleton(StreamMode::Backend);
    apply_ssl_overrides(&mut raw, None, None);
    assert!(raw.http2.is_none());
    apply_ssl_overrides(&mut raw, Some("/run/cert.pem".to_string()), None);
    assert_eq!(raw.http2, Some(Http2 { ssl_cert_file: "/run/cert.pem".to_string(), ssl_key_file: String::new() }));
    raw.http2 = Some(Http2 { ssl_cert_file: "a".to_string(), ssl_key_file: "b".to_string() });
    apply_ssl_overrides(&mut raw, None, Some("k".to_string()));
    assert_eq!(raw.http2, Some(Http2 { ssl_cert_file: "a".to_string(), ssl_key_file: "k".to_string() }));
    apply_ssl_overrides(&mut raw, None, None);
    assert_eq!(raw.http2, Some(Http2 { ssl_cert_file: "a".to_string(), ssl_key_file: "k".to_string() }));
}

#[test]
fn gateway_failure_ends_run_only_without_the_studio() {
    assert!(startup_plan(LoadOutcome::Loaded, false).stream_failure_ends_run);
    assert!(!startup_plan(LoadOutcome::Loaded, true).stream_failure_ends_run);
}
