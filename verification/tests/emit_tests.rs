use embystream::config::{
    AntiReverseProxyConfig, BackendNode, Frontend, GoogleDriveConfig, Http2, PathRewriteConfig, StreamMode,
    WebDavConfig,
};
use embystream::emit::{
    anti_reverse_absent, is_default_redirect, is_zero_i32, is_zero_u64, map_anti, map_anti_opt,
    map_anti_wizard_opt, map_backend_wizard, map_frontend_wizard, map_google_drive_emit, map_http2, map_node,
    map_path_rewrite, map_rules, map_webdav_emit, should_emit_path_rewrite, should_omit_google_drive_table,
    should_omit_webdav_table, skip_webdav_query_param, skip_webdav_url_mode, wizard_emit_doc, EmitAntiRev,
    EmitHttp2, EmitPathRewrite, WizardEmitAntiRev,
};
use embystream::wizard::{backend_from_answers, build_new_raw_skeleton};

fn rule(enable: bool, pattern: &str, replacement: &str) -> PathRewriteConfig {
    PathRewriteConfig { enable, pattern: pattern.to_string(), replacement: replacement.to_string() }
}

fn blank_webdav() -> WebDavConfig {
    WebDavConfig {
        url_mode: " PATH_JOIN ".to_string(),
        node_uuid: String::new(),
        query_param: "path".to_string(),
        url_template: String::new(),
        username: " ".to_string(),
        password: String::new(),
        user_agent: String::new(),
    }
}

fn blank_drive() -> GoogleDriveConfig {
    GoogleDriveConfig {
        node_uuid: " ".to_string(),
        client_id: String::new(),
        client_secret: String::new(),
        drive_id: String::new(),
        drive_name: String::new(),
        access_token: String::new(),
        refresh_token: String::new(),
    }
}

#[test]
fn default_values_are_recognised() {
    assert!(is_zero_i32(&0) && !is_zero_i32(&-1));
    assert!(is_zero_u64(&0) && !is_zero_u64(&5));
    assert!(is_default_redirect("") && is_default_redirect("redirect"));
    assert!(!is_default_redirect("Redirect") && !is_default_redirect("proxy"));
}

#[test]
fn http2_written_only_with_a_path() {
    assert_eq!(map_http2(&Http2 { ssl_cert_file: String::new(), ssl_key_file: String::new() }), None);
    assert_eq!(
        map_http2(&Http2 { ssl_cert_file: "c".to_string(), ssl_key_file: String::new() }),
        Some(EmitHttp2 { ssl_cert_file: Some("c".to_string()), ssl_key_file: None })
    );
}

#[test]
fn rewrite_rules_written_when_they_say_something() {
    assert!(!should_emit_path_rewrite(&rule(false, "", "")));
    assert!(should_emit_path_rewrite(&rule(true, "", "")));
    assert!(should_emit_path_rewrite(&rule(false, "p", "")));
    assert_eq!(
        map_path_rewrite(&rule(false, "p", "")),
        EmitPathRewrite { enable: None, pattern: Some("p".to_string()), replacement: None }
    );
    let written = map_rules(&vec![rule(false, "", ""), rule(true, "a", "b"), rule(false, "", "r")]);
    assert_eq!(
        written,
        vec![
            EmitPathRewrite { enable: Some(true), pattern: Some("a".to_string()), replacement: Some("b".to_string()) },
            EmitPathRewrite { enable: None, pattern: None, replacement: Some("r".to_string()) },
        ]
    );
}

#[test]
fn anti_reverse_tables() {
    let off = AntiReverseProxyConfig::default();
    assert!(anti_reverse_absent(&off));
    assert_eq!(map_anti_opt(&off), None);
    assert_eq!(map_anti(&off), EmitAntiRev { enable: None, trusted_hosts: None });
    let hosts_only = AntiReverseProxyConfig { enable: false, trusted_hosts: vec!["a.com".to_string()] };
    assert!(!anti_reverse_absent(&hosts_only));
    assert_eq!(
        map_anti_opt(&hosts_only),
        Some(EmitAntiRev { enable: None, trusted_hosts: Some(vec!["a.com".to_string()]) })
    );
    let on = AntiReverseProxyConfig { enable: true, trusted_hosts: vec![] };
    assert_eq!(map_anti_wizard_opt(&on), Some(WizardEmitAntiRev { enable: true, trusted_hosts: vec![] }));
    assert_eq!(map_anti_wizard_opt(&off), None);
}

#[test]
fn blank_drive_and_webdav_tables_are_left_out() {
    assert!(should_omit_google_drive_table(&blank_drive()));
    assert_eq!(map_google_drive_emit(&blank_drive()), None);
    let mut drive = blank_drive();
    drive.drive_id = "d".to_string();
    let written = map_google_drive_emit(&drive).unwrap();
    assert_eq!(written.drive_id, Some("d".to_string()));
    assert_eq!(written.node_uuid, Some(" ".to_string()));
    assert_eq!(written.client_id, None);

    assert!(skip_webdav_url_mode("  ") && skip_webdav_url_mode("Path_Join") && !skip_webdav_url_mode("query"));
    assert!(skip_webdav_query_param("") && skip_webdav_query_param("path") && !skip_webdav_query_param("Path"));
    assert!(should_omit_webdav_table(&blank_webdav()));
    assert_eq!(map_webdav_emit(&blank_webdav()), None);
    let mut dav = blank_webdav();
    dav.url_mode = "query".to_string();
    let written = map_webdav_emit(&dav).unwrap();
    assert_eq!(written.url_mode, Some("query".to_string()));
    assert_eq!(written.query_param, None);
    assert_eq!(written.username, Some(" ".to_string()));
}

#[test]
fn nodes_omit_default_keys() {
    let node = BackendNode {
        name: "n".to_string(),
        backend_type: "Disk".to_string(),
        pattern: String::new(),
        base_url: "http://h".to_string(),
        port: String::new(),
        path: String::new(),
        priority: 0,
        proxy_mode: "redirect".to_string(),
        client_speed_limit_kbs: 0,
        client_burst_speed_kbs: 9,
        path_rewrites: vec![rule(false, "", "")],
        anti_reverse_proxy: AntiReverseProxyConfig::default(),
        uuid: "u".to_string(),
        disk: None,
        open_list: None,
        direct_link: None,
        google_drive: Some(blank_drive()),
        webdav: Some(blank_webdav()),
    };
    let w = map_node(&node);
    assert_eq!(w.name, "n");
    assert_eq!(w.backend_type, "Disk");
    assert_eq!(w.pattern, None);
    assert_eq!(w.base_url, Some("http://h".to_string()));
    assert_eq!(w.priority, None);
    assert_eq!(w.proxy_mode, None);
    assert_eq!(w.client_speed_limit_kbs, None);
    assert_eq!(w.client_burst_speed_kbs, Some(9));
    assert!(w.path_rewrites.is_empty());
    assert_eq!(w.anti_reverse_proxy, None);
    assert_eq!(w.google_drive, None);
    assert_eq!(w.webdav, None);
}

#[test]
fn wizard_document_sections() {
    let f = Frontend {
        listen_port: 1,
        check_file_existence: true,
        path_rewrites: vec![rule(true, "a", "b")],
        anti_reverse_proxy: AntiReverseProxyConfig::default(),
        device_id_exempt_clients: vec!["x".to_string()],
    };
    let wf = map_frontend_wizard(&f);
    assert_eq!(wf.listen_port, 1);
    assert!(wf.check_file_existence);
    assert_eq!(wf.path_rewrites.len(), 1);
    assert_eq!(wf.anti_reverse_proxy, None);
    let b = backend_from_answers(2, "u".to_string(), "443".to_string(), String::new(), "a,b");
    assert_eq!(map_backend_wizard(&b), b);

    let mut raw = build_new_raw_skeleton(StreamMode::Dual);
    raw.frontend = Some(f);
    raw.http2 = Some(Http2 { ssl_cert_file: String::new(), ssl_key_file: String::new() });
    let doc = wizard_emit_doc(&raw);
    assert_eq!(doc.general.stream_mode, StreamMode::Dual);
    assert_eq!(doc.http2, None);
    assert!(doc.frontend.is_some());
    assert!(doc.backend.is_none());
    assert!(doc.backend_nodes.is_empty());
}
