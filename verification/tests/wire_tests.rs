use kerr::connstr::{connection_string_to_json, json_to_connection_string, ConnectionStringError};
use kerr::dns::{PendingQueries, PendingQuery};
use kerr::keys::{key_event_to_bytes, KeyCode, KeyInput, KeyKind};
use kerr::logging::{log_header, to_crlf, user_info};
use kerr::protocol::{dns_transaction_id, frame, length_prefix, new_session_id, session_id_with, split_chunks, take_frame, ALPN};
use kerr::socks::{check_command, greeting_reply, parse_greeting, parse_request, socks_reply, Parse, Socks5Error};

fn key(code: KeyCode, ctrl: bool, alt: bool) -> KeyInput {
    KeyInput { code, ctrl, alt, shift: false, kind: KeyKind::Press }
}

#[test]
fn key_bytes() {
    assert_eq!(key_event_to_bytes(key(KeyCode::Char('a'), false, false)), b"a".to_vec());
    assert_eq!(key_event_to_bytes(key(KeyCode::Char('é'), false, false)), "é".as_bytes().to_vec());
    assert_eq!(key_event_to_bytes(key(KeyCode::Char('c'), true, false)), vec![3]);
    assert_eq!(key_event_to_bytes(key(KeyCode::Char('Z'), true, false)), vec![26]);
    assert_eq!(key_event_to_bytes(key(KeyCode::Char('['), true, false)), b"[".to_vec());
    assert_eq!(key_event_to_bytes(key(KeyCode::Char('x'), false, true)), vec![27, b'x']);
    assert_eq!(key_event_to_bytes(key(KeyCode::Enter, false, false)), vec![13]);
    assert_eq!(key_event_to_bytes(key(KeyCode::Backspace, false, false)), vec![127]);
    assert_eq!(key_event_to_bytes(key(KeyCode::Tab, false, false)), vec![9]);
    assert_eq!(key_event_to_bytes(key(KeyCode::Up, false, false)), b"\x1b[A".to_vec());
    assert_eq!(key_event_to_bytes(key(KeyCode::Left, false, false)), b"\x1b[D".to_vec());
    assert_eq!(key_event_to_bytes(key(KeyCode::End, false, false)), b"\x1b[F".to_vec());
    assert_eq!(key_event_to_bytes(key(KeyCode::PageDown, false, false)), b"\x1b[6~".to_vec());
    assert_eq!(key_event_to_bytes(key(KeyCode::Insert, false, false)), b"\x1b[2~".to_vec());
    assert_eq!(key_event_to_bytes(key(KeyCode::F(1), false, false)), b"\x1bOP".to_vec());
    assert_eq!(key_event_to_bytes(key(KeyCode::F(5), false, false)), b"\x1b[15~".to_vec());
    assert_eq!(key_event_to_bytes(key(KeyCode::F(11), false, false)), b"\x1b[23~".to_vec());
    assert_eq!(key_event_to_bytes(key(KeyCode::F(13), false, false)), Vec::<u8>::new());
    assert_eq!(key_event_to_bytes(key(KeyCode::Other, false, false)), Vec::<u8>::new());
}

#[test]
fn frames_round_trip() {
    assert_eq!(ALPN.to_vec(), b"kerr/0".to_vec());
    assert_eq!(length_prefix(258), [0, 0, 1, 2]);
    let f = frame(b"hello");
    assert_eq!(f, vec![0, 0, 0, 5, b'h', b'e', b'l', b'l', b'o']);
    let mut buf = f.clone();
    buf.extend_from_slice(&frame(b"x"));
    let (p, n) = take_frame(&buf).unwrap();
    assert_eq!((p, n), (b"hello".to_vec(), 9));
    let (p, n) = take_frame(&buf[n..]).unwrap();
    assert_eq!((p, n), (b"x".to_vec(), 5));
    assert!(take_frame(&[0, 0, 0, 3, 1]).is_none());
    assert!(take_frame(&[0, 0]).is_none());
}

#[test]
fn chunks_cover_the_data() {
    let data: Vec<u8> = (0..300u32).map(|i| i as u8).collect();
    let c = split_chunks(&data, 128);
    assert_eq!(c.iter().map(|x| x.len()).collect::<Vec<_>>(), vec![128, 128, 44]);
    assert_eq!(c.concat(), data);
    assert!(split_chunks(&[], 10).is_empty());
}

#[test]
fn dns_ids_and_session_ids() {
    assert_eq!(dns_transaction_id(&[0x12, 0x34, 0x01]), 0x1234);
    assert_eq!(dns_transaction_id(&[0x12]), 0);
    assert_eq!(session_id_with("ping", 42), "ping_42");
    let s = new_session_id("send");
    assert!(s.starts_with("send_"));
    assert!(s["send_".len()..].parse::<u64>().is_ok());
}

#[test]
fn connection_strings_round_trip() {
    let json = r#"{"node_id":"abc","relay_url":null,"direct_addresses":["1.2.3.4:5"]}"#;
    let cs = json_to_connection_string(json);
    assert!(!cs.contains('=') && !cs.contains('+') && !cs.contains('/'));
    assert!(cs.chars().all(|c| c.is_ascii_alphanumeric() || c == '-' || c == '_'));
    assert_eq!(connection_string_to_json(&cs).unwrap(), json);
    assert!(matches!(connection_string_to_json("***"), Err(ConnectionStringError::Base64(_))));
    assert!(matches!(connection_string_to_json("aGVsbG8"), Err(ConnectionStringError::Gzip(_))));
}

#[test]
fn crlf_conversion() {
    assert_eq!(to_crlf(b"a\nb\n"), b"a\r\nb\r\n".to_vec());
    assert_eq!(to_crlf(b""), Vec::<u8>::new());
    let whole = to_crlf(b"one\ntwo\nthree");
    let mut parts = to_crlf(b"one\nt");
    parts.extend(to_crlf(b"wo\nthree"));
    assert_eq!(whole, parts);
}

#[test]
fn log_header_lines() {
    assert_eq!(user_info(Some("root".to_string())), "USER=root (privileged)");
    assert_eq!(user_info(Some("ann".to_string())), "USER=ann");
    assert_eq!(user_info(None), "USER=unknown");
    let sep = "=".repeat(80);
    assert_eq!(
        log_header("2024-01-01 00:00:00.000", "USER=ann", "/var/log/kerr.log"),
        format!("\n{}\nKerr Server Started - 2024-01-01 00:00:00.000\nUSER=ann\nLog file: /var/log/kerr.log\n{}\n\n", sep, sep)
    );
}

#[test]
fn socks_greeting_and_requests() {
    assert!(matches!(parse_greeting(&[5]), Parse::Incomplete));
    assert!(matches!(parse_greeting(&[4, 1, 0]), Parse::Invalid(Socks5Error::NotSocks5 { version: 4 })));
    assert!(matches!(parse_greeting(&[5, 2, 0]), Parse::Incomplete));
    assert!(matches!(parse_greeting(&[5, 2, 0, 2, 9]), Parse::Done((), 4)));
    assert_eq!(greeting_reply(), [5, 0]);

    match parse_request(&[5, 1, 0, 1, 10, 0, 0, 1, 0x1f, 0x90]) {
        Parse::Done(r, 10) => assert_eq!((r.cmd, r.host.as_str(), r.port), (1, "10.0.0.1", 8080)),
        other => panic!("got {:?}", other),
    }
    let mut dom = vec![5, 1, 0, 3, 11];
    dom.extend_from_slice(b"example.com");
    dom.extend_from_slice(&[1, 187]);
    match parse_request(&dom) {
        Parse::Done(r, 18) => assert_eq!((r.host.as_str(), r.port), ("example.com", 443)),
        other => panic!("got {:?}", other),
    }
    assert!(matches!(parse_request(&dom[..17]), Parse::Incomplete));
    let mut v6 = vec![5, 1, 0, 4];
    v6.extend_from_slice(&[0x20, 0x01, 0x0d, 0xb8, 0, 0, 0, 0, 0, 0, 0, 0, 0, 0, 0xab, 0x01]);
    v6.extend_from_slice(&[0, 80]);
    match parse_request(&v6) {
        Parse::Done(r, 22) => assert_eq!((r.host.as_str(), r.port), ("2001:0db8:0000:0000:0000:0000:0000:ab01", 80)),
        other => panic!("got {:?}", other),
    }
    assert!(matches!(parse_request(&[4, 1, 0, 1]), Parse::Invalid(Socks5Error::BadRequestVersion)));
    assert!(matches!(parse_request(&[5, 1, 0, 9]), Parse::Invalid(Socks5Error::UnknownAddressType { atyp: 9 })));
    match parse_request(&[5, 1, 0, 3, 1, 0xff, 0, 80]) {
        Parse::Invalid(Socks5Error::InvalidDomain(d)) => assert_eq!(d, vec![0xff]),
        other => panic!("got {:?}", other),
    }
    let bind = match parse_request(&[5, 2, 0, 1, 1, 2, 3, 4, 0, 1]) {
        Parse::Done(r, _) => r,
        _ => panic!(),
    };
    match check_command(&bind) {
        Err((bytes, e)) => {
            assert_eq!(bytes, [5, 7, 0, 1, 0, 0, 0, 0, 0, 0]);
            assert_eq!(e.message(), Some("Unsupported SOCKS5 command: 2".to_string()));
        }
        Ok(()) => panic!(),
    }
    assert_eq!(socks_reply(0), [5, 0, 0, 1, 0, 0, 0, 0, 0, 0]);
    assert_eq!(Socks5Error::NotSocks5 { version: 4 }.message(), Some("Not SOCKS5 (VER=4)".to_string()));
    assert_eq!(Socks5Error::UnknownAddressType { atyp: 9 }.message(), Some("Unknown ATYP: 9".to_string()));
}

#[test]
fn dns_answers_go_back_once() {
    let mut p: PendingQueries<&str> = PendingQueries::new();
    let a = p.allocate();
    let b = p.allocate();
    assert_eq!((a, b), (1, 2));
    p.insert(PendingQuery { query_id: a, client: "10.0.0.2:5353", transaction_id: 0xabcd });
    p.insert(PendingQuery { query_id: b, client: "10.0.0.3:5353", transaction_id: 1 });
    let q = p.take(a).unwrap();
    assert_eq!((q.client, q.transaction_id), ("10.0.0.2:5353", 0xabcd));
    assert!(p.take(a).is_none());
    p.insert(PendingQuery { query_id: b, client: "10.0.0.4:53", transaction_id: 7 });
    let q = p.take(b).unwrap();
    assert_eq!((q.query_id, q.client, q.transaction_id), (b, "10.0.0.4:53", 7));
    assert!(p.take(99).is_none());
}
