use embystream::auth_header::authorization_param;
use embystream::digest::{fnv1a_exec, hash_hex, hex16};
use embystream::order::sort_pairs;
use embystream::text::{split_by, trim_str};

#[test]
fn fnv1a_known_values() {
    assert_eq!(fnv1a_exec(b""), 0xcbf29ce484222325);
    assert_eq!(fnv1a_exec(b"a"), 0xaf63dc4c8601ec8c);
    assert_eq!(hex16(0xab), "00000000000000ab");
    assert_eq!(hash_hex(""), "cbf29ce484222325");
    assert_eq!(hash_hex("a"), "af63dc4c8601ec8c");
    assert_eq!(hash_hex("foobar"), "85944171f73967e8");
}

#[test]
fn authorization_parameters() {
    let h = "MediaBrowser Client=\"Infuse\", Device=\"iPhone\", DeviceId=\"d-1\", Version=\"7\", Token=\"tok\"";
    assert_eq!(authorization_param(h, "Token"), Some("tok".to_string()));
    assert_eq!(authorization_param(h, "DeviceId"), Some("d-1".to_string()));
    assert_eq!(authorization_param(h, "Client"), Some("Infuse".to_string()));
    assert_eq!(authorization_param(h, "UserId"), None);
    assert_eq!(authorization_param("Emby UserId=u1,Token=abc123", "Token"), Some("abc123".to_string()));
}

#[test]
fn pairs_sort_by_name_then_value() {
    let v = vec![
        ("b".to_string(), "1".to_string()),
        ("a".to_string(), "2".to_string()),
        ("a".to_string(), "1".to_string()),
    ];
    assert_eq!(
        sort_pairs(v),
        vec![
            ("a".to_string(), "1".to_string()),
            ("a".to_string(), "2".to_string()),
            ("b".to_string(), "1".to_string()),
        ]
    );
}

#[test]
fn text_helpers() {
    assert_eq!(trim_str("\t a b \n"), "a b");
    assert_eq!(split_by("a,,b", &vec![',']), vec!["a".to_string(), String::new(), "b".to_string()]);
    assert_eq!(split_by("", &vec![',']), vec![String::new()]);
}

#[test]
fn trimming_twice_changes_nothing() {
    for s in ["", " a ", "\u{3000}x\u{3000}", "a b", "\n\t"] {
        let once = trim_str(s);
        assert_eq!(trim_str(&once), once);
        assert_eq!(once, s.trim());
    }
}
