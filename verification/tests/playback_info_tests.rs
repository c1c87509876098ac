use embystream::forward::{forward_info_from_playback, ForwardError};
use embystream::playback::{MediaSource, PlaybackInfo};
use embystream::playback_service::{
    api_token_from_headers_and_query, api_token_from_headers_query_and_body, item_index_after_fetch,
    item_index_after_lookup, item_index_cache_key, item_index_start, response_cache_key,
    response_store_after_parse, response_store_start, HttpMethod, IndexStoreStep, ResponseStoreStep, ItemIndexStep, PlaybackInfoRequest, PlaybackInfoServiceError,
    RequestHeaders,
};

fn source(id: &str, path: Option<&str>) -> MediaSource {
    let mut s = MediaSource::default();
    s.id = Some(id.to_string());
    s.path = path.map(|p| p.to_string());
    s
}

fn multi_source_info() -> PlaybackInfo {
    PlaybackInfo {
        media_sources: vec![source("src-a", Some("/media/a.mkv")), source("src-b", Some("/media/b.mkv"))],
        play_session_id: None,
    }
}

fn single_source_info() -> PlaybackInfo {
    PlaybackInfo { media_sources: vec![source("src-a", Some("/media/a.mkv"))], play_session_id: None }
}

fn no_headers() -> RequestHeaders {
    RequestHeaders { x_emby_token: None, x_emby_authorization: None, device_id: None }
}

#[test]
fn test_playback_info_find_media_source_path_by_id_found() {
    let info = multi_source_info();
    assert_eq!(info.find_media_source_path_by_id("src-b"), Some("/media/b.mkv"));
}

#[test]
fn test_playback_info_find_media_source_path_by_id_not_found() {
    let info = single_source_info();
    assert!(info.find_media_source_path_by_id("src-z").is_none());
}

#[test]
fn test_playback_info_find_media_source_path_by_id_no_path() {
    let info = PlaybackInfo { media_sources: vec![source("src-a", None)], play_session_id: None };
    assert!(info.find_media_source_path_by_id("src-a").is_none());
}

#[test]
fn test_select_media_source_matches_by_id() {
    let info = multi_source_info();
    let source = info.select_media_source(Some("src-b"));
    assert_eq!(source.and_then(|s| s.path.as_deref()), Some("/media/b.mkv"));
}

#[test]
fn test_select_media_source_unknown_id_returns_none() {
    let info = multi_source_info();
    assert!(info.select_media_source(Some("src-z")).is_none());
}

#[test]
fn test_select_media_source_single_source_without_id() {
    let info = single_source_info();
    let source = info.select_media_source(None);
    assert_eq!(source.and_then(|s| s.path.as_deref()), Some("/media/a.mkv"));
}

#[test]
fn test_select_media_source_single_source_blank_id() {
    let info = single_source_info();
    let source = info.select_media_source(Some("   "));
    assert_eq!(source.and_then(|s| s.id.as_deref()), Some("src-a"));
}

#[test]
fn test_select_media_source_multi_source_without_id_is_ambiguous() {
    let info = multi_source_info();
    assert!(info.select_media_source(None).is_none());
}

#[test]
fn test_select_media_source_empty_returns_none() {
    let info = PlaybackInfo::default();
    assert!(info.select_media_source(None).is_none());
    assert!(info.select_media_source(Some("src-a")).is_none());
}

#[test]
fn select_media_source_takes_the_first_of_equal_ids() {
    let info = PlaybackInfo {
        media_sources: vec![source("dup", Some("/first.mkv")), source("dup", Some("/second.mkv"))],
        play_session_id: None,
    };
    assert_eq!(info.select_media_source(Some(" dup ")).and_then(|s| s.path.as_deref()), Some("/first.mkv"));
}

#[test]
fn item_id_from_path_extracts_id_with_emby_prefix() {
    assert_eq!(
        PlaybackInfoRequest::item_id_from_path("/emby/Items/249971/PlaybackInfo"),
        Some("249971".to_string())
    );
}

#[test]
fn item_id_from_path_extracts_id_without_emby_prefix() {
    assert_eq!(PlaybackInfoRequest::item_id_from_path("/Items/249971/PlaybackInfo"), Some("249971".to_string()));
}

#[test]
fn item_id_from_path_rejects_non_playback_info_path() {
    assert!(PlaybackInfoRequest::item_id_from_path("/emby/Items/249971").is_none());
}

#[test]
fn item_id_from_path_ignores_case_and_empty_segments() {
    assert_eq!(PlaybackInfoRequest::item_id_from_path("//items//77//playbackinfo"), Some("77".to_string()));
}

#[test]
fn playback_info_request_new_keeps_its_parts() {
    let r = PlaybackInfoRequest::new("1", "m", HttpMethod::Get, Some(vec![1u8, 2]), Some("text/plain".to_string()));
    assert_eq!(r.item_id, "1");
    assert_eq!(r.media_source_id, "m");
    assert_eq!(r.method, HttpMethod::Get);
    assert_eq!(r.body, Some(vec![1u8, 2]));
    assert_eq!(r.content_type, Some("text/plain".to_string()));
}

#[test]
fn response_cache_key_is_query_order_independent() {
    let key1 = response_cache_key("23090", Some("IsPlayback=false&reqformat=json&StartTimeTicks=0"));
    let key2 = response_cache_key("23090", Some("StartTimeTicks=0&reqformat=json&IsPlayback=false"));
    assert_eq!(key1, key2);
    assert!(key1.starts_with("playback:info:response:hash:"));
}

#[test]
fn response_cache_key_is_item_id_case_insensitive() {
    let lower = response_cache_key("abc", Some("a=1"));
    let upper = response_cache_key("ABC", Some("a=1"));
    assert_eq!(lower, upper);
}

#[test]
fn response_cache_key_differs_on_query_value() {
    let low_bitrate = response_cache_key("23090", Some("MaxStreamingBitrate=500000"));
    let high_bitrate = response_cache_key("23090", Some("MaxStreamingBitrate=999999"));
    assert_ne!(low_bitrate, high_bitrate);
}

#[test]
fn response_cache_key_differs_on_item_id() {
    let item_a = response_cache_key("23090", Some("a=1"));
    let item_b = response_cache_key("73426", Some("a=1"));
    assert_ne!(item_a, item_b);
}

#[test]
fn response_cache_key_ignores_auth_credentials() {
    let with_token = response_cache_key("23090", Some("reqformat=json&api_key=secret&X-Emby-Token=tok"));
    let without_token = response_cache_key("23090", Some("reqformat=json"));
    assert_eq!(with_token, without_token);
}

#[test]
fn response_cache_key_treats_blank_query_as_none() {
    assert_eq!(response_cache_key("1", Some("   ")), response_cache_key("1", None));
}

#[test]
fn item_index_cache_key_is_media_source_independent() {
    let key = item_index_cache_key("Item-42");
    assert_eq!(key.unwrap_or_default(), "playback:info:item_index:item_id:item-42");
}

#[test]
fn item_index_cache_key_rejects_blank_item_id() {
    assert!(item_index_cache_key("   ").is_err());
}

#[test]
fn playback_info_service_parses_api_token_from_unquoted_emby_header() {
    let headers = RequestHeaders {
        x_emby_token: None,
        x_emby_authorization: Some(
            "Emby UserId=user1,Client=Yamby,Device=Phone,DeviceId=device1,Version=1.0,Token=abc123".to_string(),
        ),
        device_id: None,
    };
    assert_eq!(api_token_from_headers_and_query(&headers, None), Some("abc123".to_string()));
}

#[test]
fn playback_info_service_parses_api_token_from_json_body() {
    let headers = no_headers();
    assert_eq!(
        api_token_from_headers_query_and_body(&headers, None, Some(br#"{"Token":"abc123"}"#), Some("application/json")),
        Some("abc123".to_string())
    );
}

#[test]
fn api_token_prefers_query_over_headers() {
    let headers = RequestHeaders { x_emby_token: Some("hdr".to_string()), x_emby_authorization: None, device_id: None };
    assert_eq!(api_token_from_headers_and_query(&headers, Some("X-Emby-Token=q1")), Some("q1".to_string()));
    assert_eq!(api_token_from_headers_and_query(&headers, Some("a=1")), Some("hdr".to_string()));
}

#[test]
fn api_token_from_form_body() {
    let headers = no_headers();
    assert_eq!(
        api_token_from_headers_query_and_body(
            &headers,
            None,
            Some(b"api_key=k%20y"),
            Some("application/x-www-form-urlencoded; charset=utf-8")
        ),
        Some("k y".to_string())
    );
}

#[test]
fn item_index_steps_follow_cache_aside() {
    match item_index_start("  Item-7 ") {
        ItemIndexStep::LookupIndex { key } => assert_eq!(key, "playback:info:item_index:item_id:item-7"),
        other => panic!("unexpected {:?}", other),
    }
    assert!(matches!(item_index_start(" "), ItemIndexStep::Failed(PlaybackInfoServiceError::InvalidItemId)));
    let hit = item_index_after_lookup("k".to_string(), false, Some(single_source_info()), "7", None, None);
    assert_eq!(hit, ItemIndexStep::Found(single_source_info()));
    let miss = item_index_after_lookup("k".to_string(), false, None, "7", None, None);
    assert_eq!(miss, ItemIndexStep::LockAndLookup { key: "k".to_string() });
    let no_token = item_index_after_lookup("k".to_string(), true, None, "7", None, Some("  "));
    assert!(matches!(no_token, ItemIndexStep::Failed(PlaybackInfoServiceError::EmptyApiToken)));
    match item_index_after_lookup("k".to_string(), true, None, "7", Some("ms"), Some(" tok ")) {
        ItemIndexStep::Fetch { key, request, token } => {
            assert_eq!(key, "k");
            assert_eq!(token, "tok");
            assert_eq!(request.item_id, "7");
            assert_eq!(request.media_source_id, "ms");
            assert_eq!(request.method, HttpMethod::Post);
            assert!(request.body.is_none());
        },
        other => panic!("unexpected {:?}", other),
    }
    let stored = item_index_after_fetch("k".to_string(), Ok(single_source_info()));
    assert_eq!(stored, ItemIndexStep::StoreAndReturn { key: "k".to_string(), info: single_source_info() });
    let failed = item_index_after_fetch("k".to_string(), Err(PlaybackInfoServiceError::Upstream("x".to_string())));
    assert_eq!(failed, ItemIndexStep::Failed(PlaybackInfoServiceError::Upstream("x".to_string())));
}

#[test]
fn playback_info_service_error_messages() {
    assert_eq!(PlaybackInfoServiceError::InvalidItemId.message(), "invalid playback info item id");
    assert_eq!(PlaybackInfoServiceError::EmptyApiToken.message(), "empty playback info api token");
    assert_eq!(PlaybackInfoServiceError::Upstream("boom".to_string()).message(), "playback info upstream: boom");
}

#[test]
fn responses_are_stored_then_indexed() {
    assert_eq!(
        response_store_start("k".to_string(), b"{\"a\":1}"),
        ResponseStoreStep::StoreTextThenParse { key: "k".to_string(), text: "{\"a\":1}".to_string() }
    );
    assert_eq!(response_store_start("k".to_string(), &[0xff, 0xfe]), ResponseStoreStep::StoreNothing);
    assert_eq!(response_store_after_parse("Item-1", None), IndexStoreStep::Skip);
    assert_eq!(response_store_after_parse("  ", Some(single_source_info())), IndexStoreStep::Skip);
    assert_eq!(
        response_store_after_parse(" Item-1 ", Some(single_source_info())),
        IndexStoreStep::StoreIndex {
            key: "playback:info:item_index:item_id:item-1".to_string(),
            info: single_source_info()
        }
    );
}

#[test]
fn forward_info_from_playback_selects_source() {
    let r = forward_info_from_playback("item", Some("src-b"), "dev", Ok(multi_source_info()), "sess");
    let fi = r.ok().unwrap();
    assert_eq!(fi.item_id, "item");
    assert_eq!(fi.media_source_id, "src-b");
    assert_eq!(fi.path, "/media/b.mkv");
    assert_eq!(fi.device_id, "dev");
    assert_eq!(fi.playback_session_id, "sess");
    let ambiguous = forward_info_from_playback("item", None, "dev", Ok(multi_source_info()), "sess");
    assert!(matches!(ambiguous, Err(ForwardError::EmbyPathParserError)));
    let failed = forward_info_from_playback(
        "item",
        None,
        "dev",
        Err(PlaybackInfoServiceError::EmptyApiToken),
        "sess",
    );
    assert!(matches!(failed, Err(ForwardError::EmbyPathRequestError)));
    let no_path = PlaybackInfo { media_sources: vec![source("a", None)], play_session_id: None };
    let missing = forward_info_from_playback("item", None, "dev", Ok(no_path), "sess");
    assert!(matches!(missing, Err(ForwardError::EmbyPathParserError)));
}
