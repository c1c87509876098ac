use embystream::forward::{
    cache_settings, check_forward_credentials, check_strm_size, device_id, emby_api_token, encrypt_key,
    is_slow_routing, is_strm_path, requested_media_source_id, signed_stream_query, signing_error_status,
    strm_after_lookup, strm_after_read, strm_after_size, strm_cache_key, strm_start, ForwardError,
    ForwardInfo, StrmStep, MAX_STRM_FILE_SIZE, build_redirect_info, forward_after_info, forward_after_signing,
    ForwardStep, RedirectInfo,
};
use embystream::playback_service::RequestHeaders;

fn headers(token: Option<&str>, auth: Option<&str>, device: Option<&str>) -> RequestHeaders {
    RequestHeaders {
        x_emby_token: token.map(|s| s.to_string()),
        x_emby_authorization: auth.map(|s| s.to_string()),
        device_id: device.map(|s| s.to_string()),
    }
}

#[test]
fn strm_cache_key_is_structured() {
    let key = strm_cache_key("/mnt/media/episode.strm");
    assert!(key.is_ok());
    assert!(key.unwrap_or_default().starts_with("frontend:strm:path_hash:"));
}

#[test]
fn strm_cache_key_rejects_empty_path() {
    let key = strm_cache_key("");
    assert!(key.is_err());
}

#[test]
fn strm_cache_key_ignores_case() {
    assert_eq!(strm_cache_key("/A/B.STRM").ok(), strm_cache_key("/a/b.strm").ok());
    assert_ne!(strm_cache_key("/a/b.strm").ok(), strm_cache_key("/a/c.strm").ok());
}

#[test]
fn encrypt_cache_key_is_structured() {
    let params = ForwardInfo {
        item_id: "Item-ABC".into(),
        media_source_id: "Media-XYZ".into(),
        path: "/tmp/demo.mkv".into(),
        device_id: "device-1".into(),
        playback_session_id: "D6FCD9F9-7B1F-47A2-AB78-689C5D7C5C72".into(),
    };
    let key = encrypt_key(&params);
    assert!(key.is_ok());
    assert_eq!(key.unwrap_or_default(), "forward:sign_encrypt:item_id:item-abc:media_source_id:media-xyz");
}

#[test]
fn encrypt_key_rejects_missing_ids() {
    let params = ForwardInfo {
        item_id: "".into(),
        media_source_id: "m".into(),
        path: "".into(),
        device_id: "".into(),
        playback_session_id: "".into(),
    };
    assert!(matches!(encrypt_key(&params), Err(ForwardError::InvalidMediaSource)));
}

#[test]
fn signed_stream_query_carries_session_id() {
    let query = signed_stream_query("encrypted", "device-1", "D6FCD9F9-7B1F-47A2-AB78-689C5D7C5C72");
    assert!(query.contains("sign=encrypted"));
    assert!(query.contains("device_id=device-1"));
    assert!(query.contains("session_id=D6FCD9F9-7B1F-47A2-AB78-689C5D7C5C72"));
    assert_eq!(query, "sign=encrypted&device_id=device-1&session_id=D6FCD9F9-7B1F-47A2-AB78-689C5D7C5C72");
}

#[test]
fn signed_stream_query_encodes_values() {
    assert_eq!(signed_stream_query("a b", "c&d", "e"), "sign=a+b&device_id=c%26d&session_id=e");
}

#[test]
fn strm_paths_and_sizes() {
    assert!(is_strm_path("/x/movie.strm"));
    assert!(!is_strm_path("/x/movie.STRM"));
    assert!(!is_strm_path("/x/movie.mkv"));
    assert!(matches!(check_strm_size(0), Err(ForwardError::EmptyStrmFile)));
    assert!(matches!(check_strm_size(MAX_STRM_FILE_SIZE + 1), Err(ForwardError::StrmFileTooLarge)));
    assert!(check_strm_size(MAX_STRM_FILE_SIZE).is_ok());
    assert!(check_strm_size(1).is_ok());
}

#[test]
fn strm_resolution_steps() {
    assert_eq!(strm_start("/m/a.mkv"), StrmStep::Resolved("/m/a.mkv".to_string()));
    let key = strm_cache_key("/m/a.strm").ok().unwrap();
    assert_eq!(strm_start("/m/a.strm"), StrmStep::LookupCache { key: key.clone() });
    assert_eq!(
        strm_after_lookup(key.clone(), false, Some("http://x/a".to_string())),
        StrmStep::Resolved("http://x/a".to_string())
    );
    assert_eq!(strm_after_lookup(key.clone(), false, None), StrmStep::LockAndLookup { key: key.clone() });
    assert_eq!(strm_after_lookup(key.clone(), true, None), StrmStep::ReadSize { key: key.clone() });
    assert_eq!(
        strm_after_size(key.clone(), Err("denied".to_string())),
        StrmStep::Failed(ForwardError::StrmFileIoError("denied".to_string()))
    );
    assert_eq!(strm_after_size(key.clone(), Ok(0)), StrmStep::Failed(ForwardError::EmptyStrmFile));
    assert_eq!(strm_after_size(key.clone(), Ok(2_000_000)), StrmStep::Failed(ForwardError::StrmFileTooLarge));
    assert_eq!(strm_after_size(key.clone(), Ok(10)), StrmStep::ReadContent { key: key.clone() });
    assert_eq!(
        strm_after_read(key.clone(), Ok("  http://cdn/a.mkv \n".to_string())),
        StrmStep::StoreAndResolve { key: key.clone(), path: "http://cdn/a.mkv".to_string() }
    );
    assert_eq!(
        strm_after_read(key.clone(), Err("io".to_string())),
        StrmStep::Failed(ForwardError::StrmFileIoError("io".to_string()))
    );
}

#[test]
fn cache_settings_by_memory_mode() {
    assert_eq!(cache_settings("low"), (256, 14400));
    assert_eq!(cache_settings("high"), (2048, 43200));
    assert_eq!(cache_settings("middle"), (512, 28800));
    assert_eq!(cache_settings("LOW"), (512, 28800));
}

#[test]
fn stream_token_sources_in_order() {
    let h = headers(Some("hdr"), Some("Emby Token=auth, DeviceId=dev"), None);
    assert_eq!(emby_api_token(Some("api_key=q"), &h, Some("fb")), "q");
    assert_eq!(emby_api_token(Some("X-EMBY-TOKEN=q2"), &h, Some("fb")), "q2");
    assert_eq!(emby_api_token(None, &h, Some("fb")), "hdr");
    let h2 = headers(None, Some("Emby Token=auth, DeviceId=dev"), None);
    assert_eq!(emby_api_token(None, &h2, Some("fb")), "auth");
    let h3 = headers(None, None, None);
    assert_eq!(emby_api_token(None, &h3, Some("fb")), "fb");
    assert_eq!(emby_api_token(None, &h3, None), "");
}

#[test]
fn device_id_sources_in_order() {
    let h = headers(Some("tok"), Some("Emby DeviceId=authdev"), Some("hdrdev"));
    assert_eq!(device_id(Some("deviceid=qdev"), &h), "qdev");
    assert_eq!(device_id(None, &h), "hdrdev");
    let h2 = headers(Some("tok"), Some("Emby DeviceId=authdev"), None);
    assert_eq!(device_id(None, &h2), "authdev");
    let h3 = headers(Some("tok"), None, None);
    assert_eq!(device_id(None, &h3), "tok");
}

#[test]
fn forward_credentials_are_checked_in_order() {
    assert!(matches!(check_forward_credentials("", ""), Err(ForwardError::EmptyEmbyToken)));
    assert!(matches!(check_forward_credentials("t", ""), Err(ForwardError::EmptyEmbyDeviceId)));
    assert!(check_forward_credentials("t", "d").is_ok());
}

#[test]
fn media_source_id_parameter() {
    assert_eq!(requested_media_source_id("  "), None);
    assert_eq!(requested_media_source_id(" ms1 "), Some("ms1".to_string()));
}

#[test]
fn signing_errors_map_to_status() {
    assert_eq!(signing_error_status(&ForwardError::FileNotFound("/x".to_string())), 404);
    assert_eq!(signing_error_status(&ForwardError::InvalidUri), 500);
    assert!(is_slow_routing(200));
    assert!(!is_slow_routing(199));
}

fn sample_info() -> ForwardInfo {
    ForwardInfo {
        item_id: "1".to_string(),
        media_source_id: "mediasource_1".to_string(),
        path: "/media/a.mkv".to_string(),
        device_id: "dev".to_string(),
        playback_session_id: "sess".to_string(),
    }
}

fn pairs(v: &[(&str, &str)]) -> Vec<(String, String)> {
    v.iter().map(|(a, b)| (a.to_string(), b.to_string())).collect()
}

#[test]
fn unresolved_forward_request_is_bad_request() {
    assert_eq!(forward_after_info(Err(ForwardError::EmptyEmbyToken)), ForwardStep::Refuse(400));
    assert_eq!(forward_after_info(Err(ForwardError::InvalidMediaSource)), ForwardStep::Refuse(400));
    assert_eq!(forward_after_info(Ok(sample_info())), ForwardStep::Sign(sample_info()));
}

#[test]
fn signing_failures_map_to_statuses() {
    let h = pairs(&[("host", "a")]);
    assert_eq!(
        forward_after_signing(Err(ForwardError::FileNotFound("/x".to_string())), &h),
        ForwardStep::Refuse(404)
    );
    assert_eq!(forward_after_signing(Err(ForwardError::InvalidUri), &h), ForwardStep::Refuse(500));
}

#[test]
fn redirect_drops_only_host_headers() {
    let h = pairs(&[("host", "emby.local"), ("user-agent", "Infuse"), ("Host", "x"), ("range", "bytes=0-")]);
    let r = build_redirect_info("https://cdn/a?sign=1".to_string(), &h);
    assert_eq!(
        r,
        RedirectInfo {
            target_url: "https://cdn/a?sign=1".to_string(),
            final_headers: pairs(&[("user-agent", "Infuse"), ("range", "bytes=0-")]),
        }
    );
    assert_eq!(
        forward_after_signing(Ok("https://cdn/b".to_string()), &h),
        ForwardStep::Redirect(RedirectInfo {
            target_url: "https://cdn/b".to_string(),
            final_headers: pairs(&[("user-agent", "Infuse"), ("range", "bytes=0-")]),
        })
    );
    assert_eq!(build_redirect_info("u".to_string(), &Vec::new()).final_headers, Vec::new());
}
