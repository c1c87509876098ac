use embystream::config::{
    default_check_file_existence, extract_valid_host, trusted_hosts_from_list, trusted_hosts_from_str,
    AntiReverseProxyConfig, PathRewriteConfig,
};

fn anti(enable: bool, hosts: &[&str]) -> AntiReverseProxyConfig {
    AntiReverseProxyConfig { enable, trusted_hosts: hosts.iter().map(|s| s.to_string()).collect() }
}

#[test]
fn legacy_single_string_host_becomes_one_element_vec() {
    assert_eq!(trusted_hosts_from_str("a.example.com"), vec!["a.example.com".to_string()]);
}

#[test]
fn list_form_keeps_all_hosts_and_trims_blanks() {
    let items = vec!["a.example.com".to_string(), "  b.example.com  ".to_string(), "".to_string()];
    assert_eq!(trusted_hosts_from_list(&items), vec!["a.example.com".to_string(), "b.example.com".to_string()]);
}

#[test]
fn missing_host_defaults_to_empty_vec() {
    let config = AntiReverseProxyConfig::default();
    assert!(config.trusted_hosts.is_empty());
    assert!(!config.enable);
}

#[test]
fn blank_single_string_host_is_no_host() {
    assert!(trusted_hosts_from_str("   ").is_empty());
    assert_eq!(trusted_hosts_from_str("  a.com "), vec!["a.com".to_string()]);
}

#[test]
fn any_trusted_host_passes_with_multiple_domains() {
    let config = anti(true, &["a.example.com", "b.example.com"]);
    assert!(!config.is_need_anti("a.example.com"));
    assert!(!config.is_need_anti("b.example.com"));
    assert!(!config.is_need_anti("B.Example.com:443"));
    assert!(config.is_need_anti("evil.example.com"));
}

#[test]
fn disabled_or_empty_never_blocks() {
    let disabled = anti(false, &["a.example.com"]);
    assert!(!disabled.is_need_anti("evil.example.com"));
    let empty = anti(true, &[]);
    assert!(!empty.is_need_anti("evil.example.com"));
}

#[test]
fn trusted_host_with_scheme_and_path_matches_bare_host() {
    let config = anti(true, &["https://a.example.com/path"]);
    assert!(!config.is_need_anti("a.example.com"));
    assert!(!config.is_need_anti(""));
    assert!(config.is_need_anti("other.example.com"));
}

#[test]
fn valid_host_of_urls() {
    assert_eq!(extract_valid_host("http://a.example.com:8096/x"), Some("a.example.com".to_string()));
    assert_eq!(extract_valid_host("https://b.com"), Some("b.com".to_string()));
    assert_eq!(extract_valid_host("c.com/p"), Some("c.com".to_string()));
    assert_eq!(extract_valid_host(""), None);
    assert_eq!(extract_valid_host("http://"), None);
}

#[test]
fn path_rewrite_needs_enabled_rule_with_pattern_and_replacement() {
    let rule = PathRewriteConfig { enable: true, pattern: "^/a".to_string(), replacement: "/b".to_string() };
    assert!(rule.is_need_rewrite("/a/x"));
    assert!(!rule.is_need_rewrite(""));
    let disabled = PathRewriteConfig { enable: false, ..rule.clone() };
    assert!(!disabled.is_need_rewrite("/a/x"));
    let no_replacement = PathRewriteConfig { replacement: String::new(), ..rule.clone() };
    assert!(!no_replacement.is_need_rewrite("/a/x"));
    let default_rule = PathRewriteConfig::default();
    assert!(!default_rule.is_need_rewrite("/a/x"));
}

#[test]
fn file_check_defaults_on() {
    assert!(default_check_file_existence());
}

#[test]
fn reread_trusted_hosts_are_unchanged() {
    let items = vec![" a.com ".to_string(), "".to_string(), "b.com".to_string(), "  ".to_string()];
    let once = trusted_hosts_from_list(&items);
    assert_eq!(trusted_hosts_from_list(&once), once);
}
