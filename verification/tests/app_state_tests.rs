use std::sync::Arc;

use embystream::app_state::{
    local_metadata_cache_settings, node_rate_limits, problematic_clients, rate_limiter_settings,
    should_remove_request_lock, webdav_warmup_targets,
};
use embystream::config::{AntiReverseProxyConfig, BackendNode};

fn node(backend_type: &str, uuid: &str, base_url: &str, limit: u64, burst: u64) -> BackendNode {
    BackendNode {
        name: uuid.to_string(),
        backend_type: backend_type.to_string(),
        pattern: String::new(),
        base_url: base_url.to_string(),
        port: String::new(),
        path: String::new(),
        priority: 0,
        proxy_mode: String::new(),
        client_speed_limit_kbs: limit,
        client_burst_speed_kbs: burst,
        path_rewrites: vec![],
        anti_reverse_proxy: AntiReverseProxyConfig::default(),
        uuid: uuid.to_string(),
        disk: None,
        open_list: None,
        direct_link: None,
        google_drive: None,
        webdav: None,
    }
}

#[test]
fn problematic_clients_are_lowercased_and_unique() {
    let mut clients = problematic_clients(None);
    clients.sort();
    assert_eq!(clients, vec!["emby/", "embytolocalplayer", "hills", "yamby"]);
    let extra = vec!["VLC".to_string(), "Yamby".to_string(), "".to_string(), "ÄPP".to_string()];
    let mut clients = problematic_clients(Some(&extra));
    clients.sort();
    assert_eq!(clients, vec!["emby/", "embytolocalplayer", "hills", "vlc", "yamby", "äpp"]);
}

#[test]
fn only_disk_nodes_get_rate_limiters() {
    let nodes = vec![
        node("Disk", "d1", "", 100, 200),
        node("WebDav", "w1", "https://dav", 1, 1),
        node("disk", "d2", "", 0, 0),
        node("webdav", "w2", "", 0, 0),
        node("WEBDAV", "w3", "http://dav example", 0, 0),
        node("WebDav", "w4", "http://dav2:8080/root", 0, 0),
    ];
    let limits = node_rate_limits(&nodes);
    assert_eq!(limits.len(), 2);
    assert_eq!(limits[0].node_uuid, "d1");
    assert_eq!(limits[0].speed_limit_kbs, 100);
    assert_eq!(limits[0].burst_speed_kbs, 200);
    assert_eq!(limits[1].node_uuid, "d2");
    assert_eq!(
        webdav_warmup_targets(&nodes),
        vec!["https://dav".to_string(), "http://dav2:8080/root".to_string()]
    );
}

#[test]
fn limiter_and_metadata_cache_sizes() {
    assert_eq!(rate_limiter_settings("low"), (512, 14400));
    assert_eq!(rate_limiter_settings("whatever"), (1024, 28800));
    assert_eq!(local_metadata_cache_settings("high"), (2048, 7200));
}

#[test]
fn request_locks_are_dropped_when_unshared() {
    assert!(should_remove_request_lock(true, 2));
    assert!(!should_remove_request_lock(true, 3));
    assert!(!should_remove_request_lock(false, 2));
}

#[test]
fn cleanup_request_lock_removes_unshared_lock() {
    let lock = Arc::new(());
    let in_table = Arc::clone(&lock);
    assert!(should_remove_request_lock(Arc::ptr_eq(&in_table, &lock), Arc::strong_count(&in_table)));
}

#[test]
fn cleanup_request_lock_keeps_shared_lock() {
    let lock = Arc::new(());
    let in_table = Arc::clone(&lock);
    let _other_ref = Arc::clone(&lock);
    assert!(!should_remove_request_lock(Arc::ptr_eq(&in_table, &lock), Arc::strong_count(&in_table)));
}
