use base64::Engine;
use kerr::auth::{
    backend_url, build_auth_url, callback_code, generate_state_token, login_request, parse_callback_url, redirect_uri,
    AuthError, Connection, REDIRECT_PORT,
};
use kerr::display::{format_time, ping_size_label, ping_traffic_estimate, PING_SIZES};
use kerr::explorer::{FileMetadata, FileTime};

fn pairs(v: &[(&str, &str)]) -> Vec<(String, String)> {
    v.iter().map(|(a, b)| (a.to_string(), b.to_string())).collect()
}

#[test]
fn state_tokens_are_32_random_bytes() {
    let t = generate_state_token();
    assert_eq!(t.len(), 43);
    let bytes = base64::engine::general_purpose::URL_SAFE_NO_PAD.decode(&t).unwrap();
    assert_eq!(bytes.len(), 32);
    assert_ne!(generate_state_token(), t);
}

#[test]
fn auth_url_carries_the_login_parameters() {
    assert_eq!(REDIRECT_PORT, 8585);
    assert_eq!(redirect_uri(), "http://127.0.0.1:8585");
    let u = build_auth_url("abc").unwrap();
    let parsed = url::Url::parse(&u).unwrap();
    let q: Vec<(String, String)> = parsed.query_pairs().map(|(k, v)| (k.into_owned(), v.into_owned())).collect();
    assert_eq!(
        q,
        pairs(&[
            ("client_id", "402230363945-pmkrgrkkashlcdkf8oso0pptneioqn2o.apps.googleusercontent.com"),
            ("redirect_uri", "http://127.0.0.1:8585"),
            ("response_type", "code"),
            ("scope", "email profile"),
            ("state", "abc"),
        ])
    );
    assert!(u.starts_with("https://accounts.google.com/o/oauth2/v2/auth?client_id="));
}

#[test]
fn callback_gives_the_code_when_the_state_matches() {
    let code = parse_callback_url("http://127.0.0.1:8585/?state=s1&code=4%2F0abc&scope=email", "s1").unwrap();
    assert_eq!(code, "4/0abc");
    // a repeated key counts with its last value
    assert_eq!(callback_code(&pairs(&[("code", "a"), ("state", "s"), ("code", "b")]), "s").unwrap(), "b");
}

#[test]
fn callback_errors() {
    match parse_callback_url("http://127.0.0.1:8585/?error=access_denied&state=s1", "s1") {
        Err(AuthError::OAuth(m)) => assert_eq!(m, "access_denied"),
        other => panic!("got {:?}", other),
    }
    match parse_callback_url("http://127.0.0.1:8585/?state=zz&code=c", "s1") {
        Err(e @ AuthError::StateMismatch { .. }) => assert_eq!(e.message(), "State mismatch: expected 's1', got 'zz'"),
        other => panic!("got {:?}", other),
    }
    match parse_callback_url("http://127.0.0.1:8585/?code=c", "s1") {
        Err(e) => assert_eq!(e.message(), "State mismatch: expected 's1', got ''"),
        Ok(_) => panic!(),
    }
    match parse_callback_url("http://127.0.0.1:8585/?state=s1", "s1") {
        Err(e @ AuthError::NoCode) => assert_eq!(e.message(), "No authorization code in callback URL"),
        other => panic!("got {:?}", other),
    }
    match parse_callback_url("not a url", "s1") {
        Err(e @ AuthError::CallbackUrl(_)) => {
            assert_eq!(e.message(), "Failed to parse callback URL: relative URL without a base")
        }
        other => panic!("got {:?}", other),
    }
    // an error wins over a state mismatch
    match callback_code(&pairs(&[("state", "x"), ("error", "e")]), "s") {
        Err(AuthError::OAuth(m)) => assert_eq!(m, "e"),
        other => panic!("got {:?}", other),
    }
}

#[test]
fn backend_requests() {
    let r = login_request("c".to_string(), "http://127.0.0.1:8585".to_string());
    assert_eq!(r.login_from, "terminal");
    assert_eq!(
        backend_url("connections"),
        "https://0hepe5jz44.execute-api.us-west-2.amazonaws.com/default/connections"
    );
}

#[test]
fn connections_are_listed_with_alias_host_and_date() {
    let c = Connection {
        connection_string: "cs".to_string(),
        registered_at: 1700000000,
        alias: Some("laptop".to_string()),
        host_name: "box".to_string(),
    };
    assert_eq!(c.display_text(), "laptop @ box - registered: 2023-11-14 22:13");
    let c = Connection { alias: None, registered_at: 0, ..c };
    assert_eq!(c.display_text(), "(no alias) @ box - registered: 1970-01-01 00:00");
    let c = Connection { registered_at: u64::MAX / 2, ..c };
    assert_eq!(c.display_text(), "(no alias) @ box - registered: unknown");
}

fn meta(size: u64, is_dir: bool) -> FileMetadata {
    FileMetadata { size, created: None, modified: None, is_dir }
}

fn reference_size(size: u64) -> String {
    if size < 1024 {
        format!("{} B", size)
    } else if size < 1024 * 1024 {
        format!("{:.2} KB", size as f64 / 1024.0)
    } else if size < 1024 * 1024 * 1024 {
        format!("{:.2} MB", size as f64 / (1024.0 * 1024.0))
    } else {
        format!("{:.2} GB", size as f64 / (1024.0 * 1024.0 * 1024.0))
    }
}

#[test]
fn sizes_are_shown_like_two_decimal_floats() {
    assert_eq!(meta(0, false).format_size(), "0 B");
    assert_eq!(meta(1023, false).format_size(), "1023 B");
    assert_eq!(meta(1024, false).format_size(), "1.00 KB");
    assert_eq!(meta(1536, false).format_size(), "1.50 KB");
    assert_eq!(meta(128, true).format_size(), "<DIR>");
    assert_eq!(meta(5 * 1024 * 1024, false).format_size(), "5.00 MB");
    assert_eq!(meta(3 * 1024 * 1024 * 1024, false).format_size(), "3.00 GB");
    let mut samples: Vec<u64> = vec![
        1024 + 128,
        1024 + 5,
        1047552,
        1048575,
        1073741823,
        (1u64 << 53) + 1,
        (1u64 << 53) + 3,
        u64::MAX,
        u64::MAX - 1024,
        12345678901234,
    ];
    let mut x: u64 = 0x9e3779b97f4a7c15;
    for _ in 0..2000 {
        x = x.wrapping_mul(6364136223846793005).wrapping_add(1442695040888963407);
        samples.push(x >> (x % 61));
        samples.push((x >> 40) % (1 << 21));
    }
    for s in samples {
        assert_eq!(meta(s, false).format_size(), reference_size(s), "size {}", s);
    }
}

#[test]
fn times_are_shown_in_utc() {
    let t = FileTime { seconds: 1700000000, nanos: 999_999_999 };
    assert_eq!(format_time(Some(t)), "2023-11-14 22:13:20");
    assert_eq!(format_time(Some(FileTime { seconds: -1, nanos: 0 })), "Unknown");
    assert_eq!(format_time(None), "Unknown");
    assert_eq!(format_time(Some(FileTime { seconds: i64::MAX, nanos: 0 })), "1970-01-01 00:00:00");
    let m = FileMetadata { size: 1, created: Some(FileTime { seconds: 0, nanos: 0 }), modified: Some(t), is_dir: false };
    assert_eq!(m.format_created(), "1970-01-01 00:00:00");
    assert_eq!(m.format_modified(), "2023-11-14 22:13:20");
}

#[test]
fn ping_labels_and_traffic() {
    let labels: Vec<String> = PING_SIZES.iter().map(|s| ping_size_label(*s)).collect();
    assert_eq!(labels, vec!["0 B", "1 KB", "4 KB", "16 KB", "64 KB", "256 KB", "1 MB"]);
    assert_eq!(ping_size_label(1500), "1 KB");
    assert_eq!(ping_traffic_estimate(1024, 10), 1024 + 60 + 1024 + 60);
}
