use kerr::explorer::{FileEntry, FileMetadata, FileTime};
use kerr::keys::{KeyCode, KeyInput, KeyKind};
use kerr::protocol::{ClientMessage, ServerMessage, SessionType};
use kerr::server::{
    console_action, copied_message, ping_reply, server_command, session_for_hello, shell_action, shell_prompt_command,
    short_session_id, terminal_output, CommandKind, ConsoleAction, ShellAction,
};
use kerr::web::{file_api_error, metadata_response, FileApiOp};
use kerr::web::{
    already_connected, asset_path, asset_reply, content_disposition, epoch_seconds, file_content_text, form_field,
    forward_id, forward_session_id, invalid_connection_string, listed_file, not_connected, shell_to_terminal,
    terminal_to_shell, upload_request, web_auth_url, web_login_request, web_redirect_uri, web_upload_start, AssetReply,
    FormField, PortForward, PortForwards, TerminalMessage, UploadForm,
};

fn press(code: KeyCode) -> KeyInput {
    KeyInput { code, ctrl: false, alt: false, shift: false, kind: KeyKind::Press }
}

#[test]
fn server_commands_and_console_keys() {
    assert_eq!(server_command(CommandKind::Connect, "abc"), "kerr connect abc");
    assert_eq!(server_command(CommandKind::Relay, "abc"), "kerr relay abc");
    assert_eq!(copied_message(CommandKind::Ping), "✓ Ping command copied to clipboard!");
    assert_eq!(console_action(press(KeyCode::Char('s'))), ConsoleAction::Copy(CommandKind::Send));
    assert_eq!(console_action(press(KeyCode::Char('i'))), ConsoleAction::Copy(CommandKind::Ping));
    assert_eq!(console_action(press(KeyCode::Char('x'))), ConsoleAction::Nothing);
    let ctrl_c = KeyInput { code: KeyCode::Char('c'), ctrl: true, alt: false, shift: false, kind: KeyKind::Press };
    assert_eq!(console_action(ctrl_c), ConsoleAction::Quit);
    let released = KeyInput { kind: KeyKind::Release, ..press(KeyCode::Char('c')) };
    assert_eq!(console_action(released), ConsoleAction::Nothing);
    let shifted = KeyInput { shift: true, ..press(KeyCode::Char('c')) };
    assert_eq!(console_action(shifted), ConsoleAction::Nothing);
}

#[test]
fn sessions_and_shell_messages() {
    assert_eq!(session_for_hello(&ClientMessage::Hello { session_type: SessionType::Ping }), Some(SessionType::Ping));
    assert_eq!(session_for_hello(&ClientMessage::Disconnect), None);
    assert_eq!(short_session_id("0123456789abcdef"), "01234567");
    assert_eq!(shell_prompt_command(Some("alice".to_string())), "export PS1='alice@kerr \\w> ' && exec bash --norc --noprofile");
    assert_eq!(shell_prompt_command(None), "export PS1='user@kerr \\w> ' && exec bash --norc --noprofile");
    assert_eq!(shell_action(&ClientMessage::KeyEvent { data: vec![97] }), ShellAction::WriteInput);
    assert_eq!(shell_action(&ClientMessage::Resize { cols: 100, rows: 40 }), ShellAction::Resize { cols: 100, rows: 40 });
    assert_eq!(shell_action(&ClientMessage::Disconnect), ShellAction::Disconnect);
    assert_eq!(shell_action(&ClientMessage::EndUpload), ShellAction::Unexpected);
    match terminal_output(vec![]) {
        (ServerMessage::Error { message }, true) => assert_eq!(message, "Session ended: bash exited"),
        _ => panic!(),
    }
    match terminal_output(vec![104, 105]) {
        (ServerMessage::Output { data }, false) => assert_eq!(data, vec![104, 105]),
        _ => panic!(),
    }
    match ping_reply(ClientMessage::PingRequest { data: vec![1, 2, 3] }) {
        Some(ServerMessage::PingResponse { data }) => assert_eq!(data, vec![1, 2, 3]),
        _ => panic!(),
    }
    assert!(ping_reply(ClientMessage::Disconnect).is_none());
}

#[test]
fn embedded_files() {
    assert_eq!(asset_path("/"), "index.html");
    assert_eq!(asset_path(""), "index.html");
    assert_eq!(asset_path("//app.js"), "app.js");
    assert_eq!(asset_path("/css/site.css"), "css/site.css");
    assert_eq!(asset_reply("app.js", true, true), AssetReply::Asset);
    assert_eq!(asset_reply("files/view", false, true), AssetReply::Index);
    assert_eq!(asset_reply("api/unknown", false, true), AssetReply::NotFound);
    assert_eq!(asset_reply("files/view", false, false), AssetReply::NotFound);
}

#[test]
fn files_for_the_browser() {
    assert_eq!(file_content_text(b"hello"), "hello");
    assert_eq!(file_content_text(&[0xff, 0x00]), "/wA=");
    assert_eq!(content_disposition("/a/b/report.pdf"), "attachment; filename=\"report.pdf\"");
    assert_eq!(content_disposition("/"), "attachment; filename=\"download\"");
    assert_eq!(epoch_seconds(FileTime { seconds: 1700000000, nanos: 5 }), "1700000000");
    assert_eq!(epoch_seconds(FileTime { seconds: -3, nanos: 0 }), "0");
    let e = FileEntry {
        name: "a.txt".to_string(),
        path: "/d/a.txt".to_string(),
        is_dir: false,
        is_hidden: false,
        metadata: Some(FileMetadata { size: 12, created: None, modified: Some(FileTime { seconds: 60, nanos: 0 }), is_dir: false }),
    };
    let l = listed_file(e);
    assert_eq!((l.name.as_str(), l.path.as_str(), l.size), ("a.txt", "/d/a.txt", 12));
    assert_eq!(l.modified, Some("60".to_string()));
    let e = FileEntry { name: "../".to_string(), path: "/".to_string(), is_dir: true, is_hidden: false, metadata: None };
    let l = listed_file(e);
    assert_eq!((l.size, l.modified), (0, None));
}

#[test]
fn terminal_traffic() {
    match terminal_to_shell(TerminalMessage::Input { data: "ls é".to_string() }) {
        ClientMessage::KeyEvent { data } => assert_eq!(data, "ls é".as_bytes().to_vec()),
        _ => panic!(),
    }
    assert!(matches!(
        terminal_to_shell(TerminalMessage::Resize { cols: 80, rows: 24 }),
        ClientMessage::Resize { cols: 80, rows: 24 }
    ));
    assert_eq!(shell_to_terminal(&ServerMessage::Output { data: vec![104, 0xff] }), Some("h\u{fffd}".to_string()));
    assert_eq!(
        shell_to_terminal(&ServerMessage::Error { message: "boom".to_string() }),
        Some("\r\n\x1b[31mError: boom\x1b[0m\r\n".to_string())
    );
    assert_eq!(shell_to_terminal(&ServerMessage::UploadAck), None);
}

#[test]
fn upload_forms() {
    assert_eq!(form_field("file"), FormField::File);
    assert_eq!(form_field("path"), FormField::Path);
    assert_eq!(form_field("other"), FormField::Other);
    let e = upload_request(UploadForm { file: None, path: Some("/x".to_string()) }).unwrap_err();
    assert_eq!((e.status, e.message.as_str()), (400, "Missing file data"));
    let e = upload_request(UploadForm { file: Some(vec![1]), path: None }).unwrap_err();
    assert_eq!((e.status, e.message.as_str()), (400, "Missing target path"));
    let (p, d) = upload_request(UploadForm { file: Some(vec![1, 2]), path: Some("/x".to_string()) }).unwrap();
    assert_eq!((p.as_str(), d), ("/x", vec![1, 2]));
    match web_upload_start("/x".to_string(), 2) {
        ClientMessage::StartUpload { path, size, is_dir, force } => {
            assert_eq!((path.as_str(), size, is_dir, force), ("/x", 2, false, true))
        }
        _ => panic!(),
    }
}

#[test]
fn port_forwardings() {
    assert_eq!(forward_id(1700000000123, 42), "pf_1700000000123_42");
    assert_eq!(forward_session_id("pf_1_2"), "tcp_relay_pf_1_2");
    let mut t: PortForwards<u8> = PortForwards::new();
    t.insert(PortForward { id: "a".to_string(), name: None, local_port: 8000, remote_port: 80, handle: 1 });
    t.insert(PortForward { id: "b".to_string(), name: Some("db".to_string()), local_port: 5433, remote_port: 5432, handle: 2 });
    t.insert(PortForward { id: "a".to_string(), name: None, local_port: 8001, remote_port: 81, handle: 3 });
    assert!(t.contains("a") && t.contains("b"));
    let f = t.disconnect("a").unwrap();
    assert_eq!((f.local_port, f.handle), (8001, 3));
    assert!(!t.contains("a"));
    let e = t.disconnect("a").unwrap_err();
    assert_eq!((e.status, e.message.as_str()), (404, "Port forwarding a not found"));
    assert!(t.contains("b"));
    let b = t.remove("b").unwrap();
    assert_eq!((b.id.as_str(), b.name.as_deref(), b.local_port, b.remote_port, b.handle), ("b", Some("db"), 5433, 5432, 2));
    assert!(t.remove("b").is_none());
    let n = not_connected();
    assert_eq!((n.status, n.message.as_str()), (503, "Not connected to remote host"));
}

#[test]
fn web_login() {
    assert_eq!(web_redirect_uri(None), "http://127.0.0.1:3000/api/auth/callback");
    assert_eq!(web_redirect_uri(Some(8080)), "http://127.0.0.1:8080/api/auth/callback");
    let u = web_auth_url("st", Some(8080)).unwrap();
    let expected = url::Url::parse_with_params(
        "https://accounts.google.com/o/oauth2/v2/auth",
        &[
            ("client_id", "402230363945-pmkrgrkkashlcdkf8oso0pptneioqn2o.apps.googleusercontent.com"),
            ("redirect_uri", "http://127.0.0.1:8080/api/auth/callback"),
            ("response_type", "code"),
            ("scope", "email profile"),
            ("state", "st"),
        ],
    )
    .unwrap()
    .to_string();
    assert_eq!(u, expected);
    let e = web_login_request(None, None).unwrap_err();
    assert_eq!((e.status, e.message.as_str()), (400, "Missing authorization code"));
    let q = web_login_request(Some("c0de".to_string()), Some(4000)).unwrap();
    assert_eq!(
        (q.code.as_str(), q.redirect_uri.as_str(), q.login_from.as_str()),
        ("c0de", "http://127.0.0.1:4000/api/auth/callback", "web_ui")
    );
    assert_eq!(already_connected(), (false, "Already connected".to_string()));
    let e = invalid_connection_string("bad");
    assert_eq!((e.status, e.message.as_str()), (400, "Invalid connection string: bad"));
}

#[test]
fn file_api_answers() {
    let e = file_api_error(FileApiOp::Delete, "denied");
    assert_eq!((e.status, e.message.as_str()), (500, "Failed to delete file: denied"));
    let e = file_api_error(FileApiOp::List, "gone");
    assert_eq!(e.message, "Failed to list directory: gone");
    let m = FileMetadata { size: 5, created: None, modified: Some(FileTime { seconds: 42, nanos: 0 }), is_dir: false };
    let r = metadata_response("/a".to_string(), &m);
    assert_eq!((r.path.as_str(), r.is_dir, r.size, r.modified.as_deref(), r.permissions), ("/a", false, 5, Some("42"), None));
}

#[test]
fn fresh_forward_ids() {
    let id = kerr::web::new_forward_id(17);
    assert!(id.starts_with("pf_17_"));
    assert!(id["pf_17_".len()..].parse::<u32>().is_ok());
}
