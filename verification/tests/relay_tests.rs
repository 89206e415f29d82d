use kerr::protocol::{ClientMessage, ServerMessage};
use kerr::proxy::{parse_proxy_request, proxy_target, split_host_port};
use kerr::relay::{first_event_outcome, ClientRelayAction, ServerRelayAction, StreamTable, TunnelEvent};

#[test]
fn connect_requests_tunnel_to_their_target() {
    let t = parse_proxy_request(b"CONNECT example.com:8443 HTTP/1.1\r\nHost: example.com:8443\r\n\r\n").unwrap();
    assert_eq!(t.host, "example.com");
    assert_eq!(t.port, 8443);
    assert!(t.is_connect);
    let t = proxy_target("CONNECT example.com HTTP/1.1\r\n\r\n").unwrap();
    assert_eq!((t.host.as_str(), t.port), ("example.com", 443));
    let t = proxy_target("CONNECT example.com:notaport HTTP/1.1").unwrap();
    assert_eq!((t.host.as_str(), t.port), ("example.com", 443));
    assert!(proxy_target("CONNECT\r\n").is_none());
}

#[test]
fn plain_requests_go_to_their_host_header() {
    let t = proxy_target("GET http://a.test/ HTTP/1.1\r\nUser-Agent: x\r\nHOST:  a.test:8080 \r\n\r\n").unwrap();
    assert_eq!((t.host.as_str(), t.port, t.is_connect), ("a.test", 8080, false));
    let t = proxy_target("GET / HTTP/1.1\r\nhost: b.test\r\n\r\n").unwrap();
    assert_eq!((t.host.as_str(), t.port), ("b.test", 80));
    // no Host header
    assert!(proxy_target("GET / HTTP/1.1\r\nAccept: */*\r\n\r\n").is_none());
    // the first Host line without a value ends the search
    assert!(proxy_target("GET / HTTP/1.1\r\nHost:\r\nHost: c.test\r\n").is_none());
    // the request line itself is never taken as a header
    assert!(proxy_target("Host: d.test\r\n").is_none());
}

#[test]
fn ipv6_and_bad_ports() {
    let (h, p) = split_host_port(&"[::1]:9000".chars().collect::<Vec<char>>(), 80);
    assert_eq!((h.as_str(), p), ("[::1]", 9000));
    let (h, p) = split_host_port(&"host:70000".chars().collect::<Vec<char>>(), 80);
    assert_eq!((h.as_str(), p), ("host", 80));
    let (h, p) = split_host_port(&"host:+81".chars().collect::<Vec<char>>(), 80);
    assert_eq!((h.as_str(), p), ("host", 81));
}

#[test]
fn invalid_utf8_is_replaced_before_parsing() {
    let mut bytes = b"GET / HTTP/1.1\r\nHost: e.test:81\r\nX: ".to_vec();
    bytes.push(0xff);
    let t = parse_proxy_request(&bytes).unwrap();
    assert_eq!((t.host.as_str(), t.port), ("e.test", 81));
}

#[test]
fn client_table_routes_by_stream() {
    let mut t = StreamTable::new();
    let a = t.allocate();
    let b = t.allocate();
    assert_eq!((a, b), (1, 2));
    t.insert(a);
    t.insert(b);
    let data = ServerMessage::TcpDataResponse { stream_id: a, data: vec![1, 2, 3] };
    assert!(matches!(t.on_server_message(&data), ClientRelayAction::Deliver { stream_id: 1 }));
    match t.on_server_message(&ServerMessage::TcpCloseResponse { stream_id: a, error: Some("reset".to_string()) }) {
        ClientRelayAction::Closed { stream_id, error } => {
            assert_eq!(stream_id, 1);
            assert_eq!(error, Some("reset".to_string()));
        }
        other => panic!("got {:?}", other),
    }
    // after the close, data for the stream goes nowhere
    assert!(matches!(t.on_server_message(&data), ClientRelayAction::Ignore));
    assert!(!t.contains(a));
    match t.on_server_message(&ServerMessage::TcpOpenResponse { stream_id: b, success: false, error: None }) {
        ClientRelayAction::OpenFailed { stream_id, error } => {
            assert_eq!(stream_id, 2);
            assert_eq!(error, "");
        }
        other => panic!("got {:?}", other),
    }
    assert!(!t.contains(b));
    t.insert(7);
    assert!(matches!(
        t.on_server_message(&ServerMessage::TcpOpenResponse { stream_id: 7, success: true, error: None }),
        ClientRelayAction::Ignore
    ));
    assert!(t.contains(7));
}

#[test]
fn server_table_connects_forwards_and_closes() {
    let mut t = StreamTable::new();
    let open = ClientMessage::TcpOpen { stream_id: 5, destination_host: None, destination_port: 22 };
    assert!(matches!(t.on_client_message(&open), ServerRelayAction::Connect { stream_id: 5, port: 22 }));
    let data = ClientMessage::TcpData { stream_id: 5, data: vec![9] };
    assert!(matches!(t.on_client_message(&data), ServerRelayAction::Drop));
    match t.on_connect_result(5, Ok(())) {
        ServerMessage::TcpOpenResponse { stream_id, success, error } => {
            assert_eq!(stream_id, 5);
            assert!(success);
            assert!(error.is_none());
        }
        _ => panic!(),
    }
    assert!(matches!(t.on_client_message(&data), ServerRelayAction::Forward { stream_id: 5 }));
    assert!(matches!(t.on_client_message(&ClientMessage::TcpClose { stream_id: 5 }), ServerRelayAction::Closed { stream_id: 5 }));
    assert!(matches!(t.on_client_message(&data), ServerRelayAction::Drop));
    match t.on_connect_result(6, Err("refused".to_string())) {
        ServerMessage::TcpOpenResponse { stream_id, success, error } => {
            assert_eq!(stream_id, 6);
            assert!(!success);
            assert_eq!(error, Some("Failed to connect: refused".to_string()));
        }
        _ => panic!(),
    }
    assert!(!t.contains(6));
    t.insert(8);
    match t.on_stream_ended(8) {
        ServerMessage::TcpCloseResponse { stream_id, error } => {
            assert_eq!(stream_id, 8);
            assert!(error.is_none());
        }
        _ => panic!(),
    }
    assert!(!t.contains(8));
    assert!(matches!(t.on_client_message(&ClientMessage::Disconnect), ServerRelayAction::Unexpected));
}

#[test]
fn tunnel_events() {
    let mut t = StreamTable::new();
    t.insert(3);
    let e = t.on_tunnel_message(&ServerMessage::TcpOpenResponse { stream_id: 3, success: true, error: None });
    assert!(matches!(e, TunnelEvent::Opened { stream_id: 3, success: true }));
    assert_eq!(first_event_outcome(&e), (true, Some(0)));
    let e = t.on_tunnel_message(&ServerMessage::TcpDataResponse { stream_id: 3, data: vec![] });
    assert!(matches!(e, TunnelEvent::Data { stream_id: 3 }));
    assert_eq!(first_event_outcome(&e), (false, None));
    let e = t.on_tunnel_message(&ServerMessage::TcpCloseResponse { stream_id: 3, error: None });
    assert!(matches!(e, TunnelEvent::Closed { stream_id: 3 }));
    assert_eq!(first_event_outcome(&e), (false, Some(4)));
    assert!(matches!(t.on_tunnel_message(&ServerMessage::TcpDataResponse { stream_id: 3, data: vec![] }), TunnelEvent::Ignore));
    assert_eq!(first_event_outcome(&TunnelEvent::Opened { stream_id: 1, success: false }), (false, Some(5)));
}
