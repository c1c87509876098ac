use embystream::config::{AntiReverseProxyConfig, Disk, Http2, OpenList, StreamMode};
use embystream::wizard::{
    action_needs_existing_file, anti_reverse_from_answers, apply_shared_answers, SharedAnswers, assemble_backend_node, backend_from_answers,
    backend_type_for_index, build_new_raw_skeleton, config_filename, default_filename,
    default_template_filename, dual_port_conflict, edit_menu_choices, encipher_answer, frontend_from_answers,
    http2_from_answers, i32_answer, is_plain_file_name, main_menu_action, memory_mode_index, memory_mode_value,
    node_pattern_accepted, node_section_for, normalize_emby_url, proxy_mode_choice_count, proxy_mode_for_index,
    random_alnum, split_csv, stream_mode_for_index, template_filename, text_answer, trusted_hosts_input,
    u16_answer, u64_answer, ua_mode_default_index, ua_mode_value, EditMenuChoice, MainMenuAction, rewrite_pattern_step, RewritePatternStep, NodeAnswers, NodeAssemblyError,
    NodeDetail, NodeSection,
};

#[test]
fn empty_and_whitespace_default() {
    assert_eq!(normalize_emby_url(""), "http://127.0.0.1");
    assert_eq!(normalize_emby_url("   "), "http://127.0.0.1");
}

#[test]
fn prepends_http_without_scheme() {
    assert_eq!(normalize_emby_url("127.0.0.1"), "http://127.0.0.1");
    assert_eq!(normalize_emby_url("192.168.1.1:8096"), "http://192.168.1.1:8096");
}

#[test]
fn keeps_explicit_scheme() {
    assert_eq!(normalize_emby_url("https://emby.example.com"), "https://emby.example.com");
}

#[test]
fn normalize_emby_url_trims() {
    assert_eq!(normalize_emby_url("  https://e.com  "), "https://e.com");
    assert_eq!(normalize_emby_url(" e.com "), "http://e.com");
}

#[test]
fn csv_entries_are_trimmed_and_blank_ones_dropped() {
    assert_eq!(split_csv(" a , ,b,, c "), vec!["a".to_string(), "b".to_string(), "c".to_string()]);
    assert!(split_csv("").is_empty());
}

#[test]
fn typed_hosts_split_on_commas_and_whitespace() {
    assert_eq!(
        trusted_hosts_input("a.com, b.com\tc.com\n d.com"),
        vec!["a.com".to_string(), "b.com".to_string(), "c.com".to_string(), "d.com".to_string()]
    );
    let anti = anti_reverse_from_answers(true, "a.com b.com");
    assert!(anti.enable);
    assert_eq!(anti.trusted_hosts, vec!["a.com".to_string(), "b.com".to_string()]);
    let off = anti_reverse_from_answers(false, "a.com");
    assert!(!off.enable && off.trusted_hosts.is_empty());
}

#[test]
fn skeleton_defaults() {
    let raw = build_new_raw_skeleton(StreamMode::Backend);
    assert_eq!(raw.general.memory_mode, "middle");
    assert_eq!(raw.general.stream_mode, StreamMode::Backend);
    assert_eq!(raw.log.level, "info");
    assert_eq!(raw.log.root_path, "./logs");
    assert_eq!(raw.emby.url, "http://127.0.0.1");
    assert_eq!(raw.emby.port, "8096");
    assert_eq!(raw.user_agent.mode, "allow");
    assert!(raw.frontend.is_none() && raw.backend.is_none() && raw.backend_nodes.is_none());
}

#[test]
fn stream_modes_by_menu_position() {
    assert_eq!(stream_mode_for_index(0), StreamMode::Frontend);
    assert_eq!(stream_mode_for_index(1), StreamMode::Backend);
    assert_eq!(stream_mode_for_index(2), StreamMode::Dual);
    assert_eq!(stream_mode_for_index(9), StreamMode::Frontend);
}

#[test]
fn generated_keys_are_alphanumeric() {
    let k = random_alnum(16);
    assert_eq!(k.chars().count(), 16);
    assert!(k.chars().all(|c| c.is_ascii_alphanumeric()));
    assert!(random_alnum(0).is_empty());
    let generated = encipher_answer("   ");
    assert_eq!(generated.len(), 16);
    assert_eq!(encipher_answer("  k3y  "), "k3y");
}

#[test]
fn text_answers() {
    assert_eq!(text_answer("  x ", None, false), Some("x".to_string()));
    assert_eq!(text_answer("  ", Some(" d ".to_string()), false), Some(" d ".to_string()));
    assert_eq!(text_answer("", None, true), Some(String::new()));
    assert_eq!(text_answer("", None, false), None);
}

#[test]
fn number_answers() {
    assert_eq!(u16_answer("", 60001), Some(60001));
    assert_eq!(u16_answer(" 8080 ", 1), Some(8080));
    assert_eq!(u16_answer("70000", 1), None);
    assert_eq!(u16_answer("abc", 1), None);
    assert_eq!(i32_answer("-5", 0), Some(-5));
    assert_eq!(i32_answer(" ", 3), Some(3));
    assert_eq!(i32_answer("x", 0), None);
    assert_eq!(u64_answer("1024", 0), Some(1024));
    assert_eq!(u64_answer("-1", 0), None);
}

#[test]
fn memory_and_user_agent_modes() {
    assert_eq!(memory_mode_index("low"), Some(0));
    assert_eq!(memory_mode_index("middle"), Some(1));
    assert_eq!(memory_mode_index("high"), Some(2));
    assert_eq!(memory_mode_index("HIGH"), None);
    assert_eq!(memory_mode_value(2), "high");
    assert_eq!(ua_mode_default_index(" DENY "), 1);
    assert_eq!(ua_mode_default_index("allow"), 0);
    assert_eq!(ua_mode_default_index("other"), 0);
    assert_eq!(ua_mode_value(1), "deny");
}

#[test]
fn http2_only_with_a_path() {
    assert!(http2_from_answers(String::new(), String::new()).is_none());
    let h = http2_from_answers("cert.pem".to_string(), String::new()).unwrap();
    assert_eq!(h.ssl_cert_file, "cert.pem");
    assert_eq!(h.ssl_key_file, "");
}

#[test]
fn sections_from_answers() {
    let f = frontend_from_answers(60001, vec![], AntiReverseProxyConfig::default());
    assert_eq!(f.listen_port, 60001);
    assert!(!f.check_file_existence);
    let b = backend_from_answers(60002, "https://b".to_string(), "443".to_string(), "stream".to_string(), "Emby/, ,vlc");
    assert!(b.check_file_existence);
    assert_eq!(b.problematic_clients, vec!["Emby/".to_string(), "vlc".to_string()]);
}

#[test]
fn backend_types_and_proxy_modes() {
    let names: Vec<String> = (0..7).map(backend_type_for_index).collect();
    assert_eq!(names, vec!["Disk", "OpenList", "DirectLink", "googleDrive", "WebDav", "StreamRelay", "Disk"]);
    assert_eq!(proxy_mode_choice_count("webdav"), 3);
    assert_eq!(proxy_mode_choice_count("Disk"), 2);
    assert_eq!(proxy_mode_for_index(0, "Disk"), "redirect");
    assert_eq!(proxy_mode_for_index(1, "Disk"), "proxy");
    assert_eq!(proxy_mode_for_index(2, "WEBDAV"), "accel_redirect");
    assert_eq!(proxy_mode_for_index(2, "Disk"), "redirect");
}

#[test]
fn node_sections_by_type() {
    assert_eq!(node_section_for("Disk"), NodeSection::Disk);
    assert_eq!(node_section_for("disk"), NodeSection::NoSection);
    assert_eq!(node_section_for("OpenList"), NodeSection::OpenList);
    assert_eq!(node_section_for("DirectLink"), NodeSection::DirectLink);
    assert_eq!(node_section_for("googleDrive"), NodeSection::GoogleDrive);
    assert_eq!(node_section_for("webDAV"), NodeSection::WebDav);
    assert_eq!(node_section_for("StreamRelay"), NodeSection::NoSection);
}

fn answers(backend_type: &str) -> NodeAnswers {
    NodeAnswers {
        name: "n".to_string(),
        backend_type: backend_type.to_string(),
        pattern: "/mnt/.*".to_string(),
        base_url: "http://127.0.0.1".to_string(),
        port: "60002".to_string(),
        path: String::new(),
        priority: -1,
        proxy_mode: "proxy".to_string(),
        client_speed_limit_kbs: 10,
        client_burst_speed_kbs: 20,
        path_rewrites: vec![],
        anti_reverse_proxy: AntiReverseProxyConfig::default(),
    }
}

#[test]
fn nodes_carry_exactly_their_section() {
    let d = assemble_backend_node(answers("Disk"), NodeDetail::Disk(Disk { description: "x".to_string() })).unwrap();
    assert_eq!(d.name, "n");
    assert_eq!(d.priority, -1);
    assert!(d.uuid.is_empty());
    assert_eq!(d.disk, Some(Disk { description: "x".to_string() }));
    assert!(d.open_list.is_none() && d.direct_link.is_none() && d.google_drive.is_none() && d.webdav.is_none());
    let o = assemble_backend_node(
        answers("OpenList"),
        NodeDetail::OpenList(OpenList { base_url: "b".to_string(), port: "p".to_string(), token: "t".to_string() }),
    )
    .unwrap();
    assert!(o.disk.is_none() && o.open_list.is_some());
    let none = assemble_backend_node(answers("StreamRelay"), NodeDetail::NoDetail).unwrap();
    assert!(none.disk.is_none() && none.open_list.is_none() && none.webdav.is_none());
}

#[test]
fn nodes_refuse_foreign_sections_bad_patterns_and_modes() {
    let mismatch = assemble_backend_node(answers("OpenList"), NodeDetail::Disk(Disk { description: String::new() }));
    assert_eq!(mismatch, Err(NodeAssemblyError::SectionMismatch));
    let missing = assemble_backend_node(answers("Disk"), NodeDetail::NoDetail);
    assert_eq!(missing, Err(NodeAssemblyError::SectionMismatch));
    let mut bad = answers("OpenList");
    bad.pattern = "(".to_string();
    assert_eq!(
        assemble_backend_node(bad, NodeDetail::Disk(Disk { description: String::new() })),
        Err(NodeAssemblyError::InvalidPattern)
    );
    let mut accel = answers("StreamRelay");
    accel.proxy_mode = "accel_redirect".to_string();
    assert_eq!(assemble_backend_node(accel, NodeDetail::NoDetail), Err(NodeAssemblyError::ProxyModeNotOffered));
    let mut dav = answers("WebDav");
    dav.proxy_mode = "accel_redirect".to_string();
    let dav_node = assemble_backend_node(
        dav,
        NodeDetail::WebDav(embystream::config::WebDavConfig {
            url_mode: "path_join".to_string(),
            node_uuid: String::new(),
            query_param: "path".to_string(),
            url_template: String::new(),
            username: String::new(),
            password: String::new(),
            user_agent: String::new(),
        }),
    );
    assert!(dav_node.is_ok());
}

#[test]
fn node_patterns_must_compile() {
    assert!(node_pattern_accepted(""));
    assert!(node_pattern_accepted("^/mnt/(.*)$"));
    assert!(!node_pattern_accepted("(unclosed"));
}

#[test]
fn dual_port_conflicts() {
    let mut raw = build_new_raw_skeleton(StreamMode::Dual);
    assert_eq!(dual_port_conflict(&raw), None);
    raw.frontend = Some(frontend_from_answers(7, vec![], AntiReverseProxyConfig::default()));
    raw.backend = Some(backend_from_answers(7, String::new(), String::new(), String::new(), ""));
    assert_eq!(dual_port_conflict(&raw), Some(7));
    raw.general.stream_mode = StreamMode::Backend;
    assert_eq!(dual_port_conflict(&raw), None);
}

#[test]
fn file_names() {
    assert_eq!(config_filename(StreamMode::Frontend, "20240101_000000"), "20240101_000000_frontend.toml");
    assert_eq!(config_filename(StreamMode::Dual, "T"), "T_dual.toml");
    assert_eq!(template_filename(StreamMode::Backend, "T"), "T_backend_template.toml");
    let n = default_filename(StreamMode::Backend);
    assert!(n.ends_with("_backend.toml"));
    assert_eq!(n.len(), "20240101_000000_backend.toml".len());
    assert!(default_template_filename(StreamMode::Dual).ends_with("_dual_template.toml"));
}

#[test]
fn default_filename_stamp_has_no_path_characters() {
    for mode in [StreamMode::Frontend, StreamMode::Backend, StreamMode::Dual] {
        let n = default_filename(mode);
        let stamp = &n[..15];
        assert!(stamp.chars().all(|c| c.is_ascii_digit() || c == '_'));
        assert_eq!(&stamp[8..9], "_");
        assert!(!n.contains('/'));
        let t = default_template_filename(mode);
        assert!(t[..15].chars().all(|c| c.is_ascii_digit() || c == '_'));
    }
}

#[test]
fn menus() {
    assert_eq!(edit_menu_choices(false, false), vec![EditMenuChoice::Shared, EditMenuChoice::Done]);
    assert_eq!(
        edit_menu_choices(true, true),
        vec![
            EditMenuChoice::Shared,
            EditMenuChoice::Frontend,
            EditMenuChoice::Backend,
            EditMenuChoice::BackendNodes,
            EditMenuChoice::Done
        ]
    );
    assert_eq!(main_menu_action(0), MainMenuAction::New);
    assert_eq!(main_menu_action(4), MainMenuAction::Copy);
    assert_eq!(main_menu_action(5), MainMenuAction::Quit);
    assert!(action_needs_existing_file(MainMenuAction::Rename));
    assert!(!action_needs_existing_file(MainMenuAction::New));
    assert!(!action_needs_existing_file(MainMenuAction::Quit));
}

#[test]
fn normalizing_twice_changes_nothing() {
    for s in ["", "  ", "e.com", " https://e.com ", "h:8096", "a://b"] {
        let once = normalize_emby_url(s);
        assert_eq!(normalize_emby_url(&once), once, "input {s:?}");
    }
}

#[test]
fn plain_file_names_only() {
    assert!(is_plain_file_name("config.toml"));
    assert!(!is_plain_file_name(""));
    assert!(!is_plain_file_name("."));
    assert!(!is_plain_file_name(".."));
    assert!(!is_plain_file_name("a/b.toml"));
    assert!(!is_plain_file_name("a\\b.toml"));
}

#[test]
fn shared_answers_fill_their_keys() {
    let answers = |cert: &str| SharedAnswers {
        log_level: "debug".to_string(),
        log_root_path: "/var/log".to_string(),
        log_prefix: String::new(),
        memory_mode: "high".to_string(),
        encipher_key: "  k3y  ".to_string(),
        encipher_iv: " ".to_string(),
        emby_url: "emby.local:8096".to_string(),
        emby_port: "8096".to_string(),
        emby_token: "tok".to_string(),
        ua_mode: "deny".to_string(),
        allow_ua: vec![],
        deny_ua: vec!["curl".to_string()],
        ssl_cert_file: cert.to_string(),
        ssl_key_file: String::new(),
        video_missing_path: "/fallback.mp4".to_string(),
    };
    let mut raw = build_new_raw_skeleton(StreamMode::Dual);
    raw.http2 = Some(Http2 { ssl_cert_file: "old".to_string(), ssl_key_file: "old".to_string() });
    apply_shared_answers(&mut raw, answers(""));
    assert_eq!(raw.log.level, "debug");
    assert_eq!(raw.log.root_path, "/var/log");
    assert_eq!(raw.general.memory_mode, "high");
    assert_eq!(raw.general.stream_mode, StreamMode::Dual);
    assert_eq!(raw.general.encipher_key, "k3y");
    assert_eq!(raw.general.encipher_iv.len(), 16);
    assert_eq!(raw.emby.url, "http://emby.local:8096");
    assert_eq!(raw.emby.token, "tok");
    assert_eq!(raw.user_agent.mode, "deny");
    assert_eq!(raw.user_agent.deny_ua, vec!["curl".to_string()]);
    assert_eq!(raw.http2, Some(Http2 { ssl_cert_file: "old".to_string(), ssl_key_file: "old".to_string() }));
    assert_eq!(raw.fallback.video_missing_path, "/fallback.mp4");
    apply_shared_answers(&mut raw, answers("c.pem"));
    assert_eq!(raw.http2, Some(Http2 { ssl_cert_file: "c.pem".to_string(), ssl_key_file: String::new() }));
}

#[test]
fn rewrite_pattern_steps() {
    assert_eq!(rewrite_pattern_step(false, ""), RewritePatternStep::Accept);
    assert_eq!(rewrite_pattern_step(false, "(("), RewritePatternStep::Accept);
    assert_eq!(rewrite_pattern_step(true, ""), RewritePatternStep::Skip);
    assert_eq!(rewrite_pattern_step(true, "^/media/(.*)$"), RewritePatternStep::Accept);
    assert_eq!(rewrite_pattern_step(true, "(("), RewritePatternStep::Retry);
}
