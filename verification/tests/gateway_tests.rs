use embystream::gateway::{
    forwards_request_header, keeps_header_on_redirect, relays_response_header,
    build_target_url, is_debug_path, is_json_content_type, playback_info_after_lookup,
    playback_info_after_upstream, playback_info_start, route_for, should_cache_response,
    PlaybackInfoStep, ProxyRoute,
};
use embystream::playback_service::{response_cache_key, HttpMethod};

#[test]
fn build_target_url_collapses_double_slash_from_normalized_base() {
    let url = build_target_url(
        "http://emby:8096/",
        "/emby/Users/3ef6a13df13e48b3ae594f22804150b8?reqformat=json",
    );
    assert_eq!(url, "http://emby:8096/emby/Users/3ef6a13df13e48b3ae594f22804150b8?reqformat=json");
    assert!(!url.contains("8096//"));
}

#[test]
fn build_target_url_keeps_single_slash_without_trailing_base_slash() {
    let url = build_target_url("http://emby:8096", "/emby/Items/1");
    assert_eq!(url, "http://emby:8096/emby/Items/1");
}

#[test]
fn build_target_url_inserts_slash_when_path_missing_leading_slash() {
    let url = build_target_url("http://emby:8096", "emby/Items/1");
    assert_eq!(url, "http://emby:8096/emby/Items/1");
}

#[test]
fn build_target_url_strips_every_trailing_slash() {
    assert_eq!(build_target_url("http://emby:8096///", "/x"), "http://emby:8096/x");
}

#[test]
fn should_cache_json_success_response() {
    assert!(should_cache_response(200, Some("application/json; charset=utf-8")));
}

#[test]
fn should_not_cache_non_json_success_response() {
    assert!(!should_cache_response(200, Some("text/plain")));
}

#[test]
fn should_not_cache_json_error_response() {
    assert!(!should_cache_response(400, Some("application/json")));
}

#[test]
fn json_content_type_edges() {
    assert!(is_json_content_type(Some("  Application/JSON  ;x=y")));
    assert!(!is_json_content_type(None));
    assert!(!is_json_content_type(Some("")));
    assert!(should_cache_response(204, Some("application/json")));
    assert!(!should_cache_response(300, Some("application/json")));
    assert!(!should_cache_response(199, Some("application/json")));
}

#[test]
fn debug_paths_are_emby_api_and_web_ui() {
    assert!(is_debug_path("/emby/Items/1"));
    assert!(is_debug_path("/EMBY/Items/1"));
    assert!(is_debug_path("/web/index.html"));
    assert!(!is_debug_path("/videos/1/stream"));
    assert!(!is_debug_path("/emby"));
    assert!(!is_debug_path("emby/Items"));
}

#[test]
fn routes_by_path_and_method() {
    assert_eq!(route_for(HttpMethod::Get, "/"), ProxyRoute::RedirectToWebIndex);
    assert_eq!(route_for(HttpMethod::Post, "/emby/Items/1/PlaybackInfo"), ProxyRoute::PlaybackInfo);
    assert_eq!(route_for(HttpMethod::Get, "/emby/Items/1/PlaybackInfo"), ProxyRoute::PlaybackInfo);
    assert_eq!(route_for(HttpMethod::Delete, "/emby/Items/1/PlaybackInfo"), ProxyRoute::Proxy);
    assert_eq!(route_for(HttpMethod::Get, "/emby/Items/1"), ProxyRoute::Proxy);
}

#[test]
fn playback_info_steps_follow_cache_aside() {
    assert_eq!(playback_info_start("/emby/Items/1", None), PlaybackInfoStep::Passthrough);
    let key = response_cache_key("42", Some("a=1"));
    assert_eq!(
        playback_info_start("/emby/Items/42/PlaybackInfo", Some("a=1")),
        PlaybackInfoStep::LookupCache { key: key.clone(), item_id: "42".to_string() }
    );
    assert_eq!(
        playback_info_after_lookup(key.clone(), "42".to_string(), false, true),
        PlaybackInfoStep::ReplyCached
    );
    assert_eq!(
        playback_info_after_lookup(key.clone(), "42".to_string(), false, false),
        PlaybackInfoStep::LockAndLookup { key: key.clone(), item_id: "42".to_string() }
    );
    assert_eq!(
        playback_info_after_lookup(key.clone(), "42".to_string(), true, false),
        PlaybackInfoStep::FetchUpstream { key: key.clone(), item_id: "42".to_string() }
    );
    assert_eq!(
        playback_info_after_upstream(key.clone(), "42".to_string(), None, None),
        PlaybackInfoStep::BadGateway
    );
    assert_eq!(
        playback_info_after_upstream(key.clone(), "42".to_string(), Some(200), Some("application/json")),
        PlaybackInfoStep::StoreAndReply { key: key.clone(), item_id: "42".to_string() }
    );
    assert_eq!(
        playback_info_after_upstream(key.clone(), "42".to_string(), Some(500), Some("application/json")),
        PlaybackInfoStep::Reply
    );
}

#[test]
fn hop_headers_are_not_passed_on() {
    assert!(!forwards_request_header("host"));
    assert!(!forwards_request_header("Transfer-Encoding"));
    assert!(forwards_request_header("x-emby-token"));
    assert!(!relays_response_header("transfer-encoding"));
    assert!(relays_response_header("content-type"));
    assert!(!keeps_header_on_redirect("Host"));
    assert!(keeps_header_on_redirect("range"));
}
