use embystream::config::{
    AntiReverseProxyConfig, Backend, BackendNode, Disk, Frontend, Http2, PathRewriteConfig, RawConfig,
    StreamMode,
};
use embystream::drafts::{
    clear_default_backend_nodes, default_deployment_payload, default_nginx_payload_from_raw,
    metadata_draft_name, normalize_name, raw_from_wizard_payload, strip_scheme_host, wizard_payload_from_raw,
    WizardStreamMode,
};
use embystream::emit::wizard_emit_doc;
use embystream::wizard::build_new_raw_skeleton;

fn disk_node() -> BackendNode {
    BackendNode {
        name: "LocalDisk".to_string(),
        backend_type: "Disk".to_string(),
        pattern: "/mnt/media/.*".to_string(),
        base_url: "http://127.0.0.1".to_string(),
        port: "60002".to_string(),
        path: String::new(),
        priority: 0,
        proxy_mode: "proxy".to_string(),
        client_speed_limit_kbs: 0,
        client_burst_speed_kbs: 0,
        path_rewrites: vec![PathRewriteConfig {
            enable: false,
            pattern: "^/mnt/media(/.*)$".to_string(),
            replacement: "/media$1".to_string(),
        }],
        anti_reverse_proxy: AntiReverseProxyConfig::default(),
        uuid: String::new(),
        disk: Some(Disk { description: String::new() }),
        open_list: None,
        direct_link: None,
        google_drive: None,
        webdav: None,
    }
}

fn template(mode: StreamMode) -> RawConfig {
    let mut raw = build_new_raw_skeleton(mode);
    raw.general.encipher_key = "RandomSecretKey1".to_string();
    raw.general.encipher_iv = "RandomSecretIv2".to_string();
    raw.fallback.video_missing_path = "/mnt/anime/fallback/video_missing.mp4".to_string();
    if mode != StreamMode::Backend {
        raw.frontend = Some(Frontend {
            listen_port: 60001,
            check_file_existence: false,
            path_rewrites: vec![PathRewriteConfig {
                enable: true,
                pattern: "^/mnt(/.*)$".to_string(),
                replacement: "https://cdn.example.com$1".to_string(),
            }],
            anti_reverse_proxy: AntiReverseProxyConfig {
                enable: true,
                trusted_hosts: vec!["https://stream.example.com/".to_string()],
            },
            device_id_exempt_clients: vec![],
        });
    }
    if mode != StreamMode::Frontend {
        raw.backend = Some(Backend {
            listen_port: 60002,
            base_url: "https://backend.example.com".to_string(),
            port: "443".to_string(),
            path: "stream".to_string(),
            check_file_existence: true,
            problematic_clients: vec!["Emby/".to_string()],
        });
        raw.backend_nodes = Some(vec![disk_node()]);
    }
    raw
}

#[test]
fn wizard_payload_round_trip_preserves_generated_config() {
    for mode in [StreamMode::Frontend, StreamMode::Backend, StreamMode::Dual] {
        let raw = template(mode);
        let written = wizard_emit_doc(&raw);
        let payload = wizard_payload_from_raw(raw);
        let round_tripped = raw_from_wizard_payload(&payload);
        assert_eq!(written, wizard_emit_doc(&round_tripped));
    }
}

#[test]
fn round_trip_with_http2_and_without_nodes() {
    let mut raw = template(StreamMode::Frontend);
    raw.http2 = Some(Http2 { ssl_cert_file: "c.pem".to_string(), ssl_key_file: String::new() });
    let written = wizard_emit_doc(&raw);
    let round_tripped = raw_from_wizard_payload(&wizard_payload_from_raw(raw));
    assert_eq!(written, wizard_emit_doc(&round_tripped));
    assert!(round_tripped.backend_nodes == Some(vec![]));
}

#[test]
fn wizard_templates_start_with_empty_backend_nodes() {
    let backend = clear_default_backend_nodes(wizard_payload_from_raw(template(StreamMode::Backend)));
    let dual = clear_default_backend_nodes(wizard_payload_from_raw(template(StreamMode::Dual)));
    assert!(backend.backend_nodes.is_empty());
    assert!(dual.backend_nodes.is_empty());
}

#[test]
fn frontend_templates_keep_their_nodes() {
    let mut raw = template(StreamMode::Frontend);
    raw.backend_nodes = Some(vec![disk_node()]);
    let frontend = clear_default_backend_nodes(wizard_payload_from_raw(raw));
    assert_eq!(frontend.backend_nodes.len(), 1);
}

#[test]
fn payload_takes_the_mode_and_sections() {
    let payload = wizard_payload_from_raw(template(StreamMode::Dual));
    assert_eq!(payload.stream_mode, WizardStreamMode::Dual);
    assert_eq!(payload.shared.general.encipher_key, "RandomSecretKey1");
    assert_eq!(payload.shared.http2.ssl_cert_file, "");
    assert_eq!(payload.backend_nodes.len(), 1);
    assert_eq!(payload.nginx.frontend.server_name, "stream.example.com");
    assert_eq!(payload.nginx.backend.server_name, "backend.example.com");
    assert_eq!(payload.deployment.pm2.working_directory, "/opt/stream");
}

#[test]
fn host_names_without_scheme_and_slashes() {
    assert_eq!(strip_scheme_host("  https://a.example.com//  "), "a.example.com");
    assert_eq!(strip_scheme_host("http://b.example.com/path/"), "b.example.com/path");
    assert_eq!(strip_scheme_host("http://https://c.com"), "c.com");
    assert_eq!(strip_scheme_host("  "), "");
}

#[test]
fn nginx_names_fall_back_in_order() {
    let none = build_new_raw_skeleton(StreamMode::Frontend);
    let n = default_nginx_payload_from_raw(&none);
    assert_eq!(n.frontend.server_name, "stream.example.com");
    assert_eq!(n.backend.server_name, "stream.example.com");
    let backend_only = template(StreamMode::Backend);
    let n = default_nginx_payload_from_raw(&backend_only);
    assert_eq!(n.frontend.server_name, "backend.example.com");
    assert_eq!(n.backend.server_name, "backend.example.com");
    let frontend_only = template(StreamMode::Frontend);
    let n = default_nginx_payload_from_raw(&frontend_only);
    assert_eq!(n.frontend.server_name, "stream.example.com");
    assert_eq!(n.backend.server_name, "stream.example.com");
}

#[test]
fn deployment_directories_by_mode() {
    let f = default_deployment_payload(WizardStreamMode::Frontend);
    assert_eq!(f.systemd.binary_path, "/usr/bin/embystream");
    assert_eq!(f.systemd.working_directory, "/opt/stream");
    assert_eq!(f.systemd.config_path, "/opt/stream/config.toml");
    assert_eq!(f.pm2.working_directory, "/opt/stream-frontend");
    assert_eq!(f.pm2.config_path, "/opt/stream-frontend/config.toml");
    assert_eq!(f.pm2.out_file, "/opt/stream-frontend/logs/pm2.out.log");
    assert_eq!(f.pm2.error_file, "/opt/stream-frontend/logs/pm2.err.log");
    assert_eq!(default_deployment_payload(WizardStreamMode::Backend).pm2.working_directory, "/opt/stream-backend");
}

#[test]
fn draft_names() {
    assert_eq!(normalize_name("  My setup ".to_string(), WizardStreamMode::Dual), "My setup");
    assert_eq!(normalize_name("   ".to_string(), WizardStreamMode::Frontend), "Frontend setup");
    assert_eq!(normalize_name(String::new(), WizardStreamMode::Backend), "Backend setup");
    assert_eq!(normalize_name(String::new(), WizardStreamMode::Dual), "Dual setup");
    assert_eq!(metadata_draft_name("  x "), Some("x".to_string()));
    assert_eq!(metadata_draft_name("  "), None);
}

#[test]
fn stream_mode_conversions() {
    assert_eq!(WizardStreamMode::from(StreamMode::Backend), WizardStreamMode::Backend);
    assert_eq!(StreamMode::from(WizardStreamMode::Dual), StreamMode::Dual);
}
