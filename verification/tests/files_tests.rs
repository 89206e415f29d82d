use kerr::browser::{
    cache_dir_in, error_expired, image_error_text, is_image_file, status_line, BrowserAction, BrowserState, CacheError,
    FileCache, Pane, Preview,
};
use kerr::debug_log::{log_debug, log_line, log_pty_creation_start, log_pty_read, log_quic_write_failed};
use kerr::explorer::{make_entry, File, FileEntry, FileExplorer, FileMetadata, FileTime};
use kerr::ios::{
    decode_addr_json, delete_result, entries_from_json, exists_from, fs_result, json_parse_error, shell_event,
    upload_ack_result, valid_connection_string_text, FileMetadata as IosMetadata, JsonFileEntry, JsonFileMetadata,
    JsonSystemTime, KerrError, ShellEvent,
};
use kerr::keys::{KeyCode, KeyInput, KeyKind};
use kerr::paths::{extension, file_name, join, parent};
use kerr::protocol::{MessageEnvelope, MessagePayload, ServerMessage};
use kerr::remotefs::{fs_reply, fs_request, FsOp, FsReply};
use std::path::Path;

const PATHS: [&str; 24] = [
    "", "/", "a", "a/", "a/b", "/a/b/", "./a", "a/./b/.", "a//b", "..", "a/..", "/..", ".", "./", "a.txt", ".hidden",
    "a/b.tar.gz", "a/.x", "dir/file.", "/usr/lib/", "a/b/../c", "//x", "./.", "x/./",
];

#[test]
fn paths_agree_with_std() {
    for p in PATHS.iter() {
        let sp = Path::new(p);
        assert_eq!(file_name(p), sp.file_name().map(|s| s.to_str().unwrap().to_string()), "file_name {:?}", p);
        assert_eq!(parent(p), sp.parent().map(|s| s.to_str().unwrap().to_string()), "parent {:?}", p);
        assert_eq!(extension(p), sp.extension().map(|s| s.to_str().unwrap().to_string()), "extension {:?}", p);
        for q in ["b", "/c", ""].iter() {
            assert_eq!(join(p, q), sp.join(q).to_str().unwrap(), "join {:?} {:?}", p, q);
        }
    }
}

fn press(code: KeyCode) -> KeyInput {
    KeyInput { code, ctrl: false, alt: false, shift: false, kind: KeyKind::Press }
}

fn meta(size: u64, is_dir: bool) -> FileMetadata {
    FileMetadata { size, created: None, modified: Some(FileTime { seconds: 86400, nanos: 0 }), is_dir }
}

#[test]
fn explorer_lists_parent_dirs_then_files() {
    let mut e = FileExplorer::new("/home/u".to_string());
    let entries = vec![
        make_entry("zeta.txt", "/home/u/zeta.txt".to_string(), false, meta(1, false)),
        make_entry("Docs", "/home/u/Docs".to_string(), true, meta(0, true)),
        make_entry(".cache", "/home/u/.cache".to_string(), true, meta(0, true)),
        make_entry("alpha.txt", "/home/u/alpha.txt".to_string(), false, meta(2, false)),
    ];
    e.refresh(entries.clone());
    let names: Vec<&str> = e.files().iter().map(|f| f.name()).collect();
    assert_eq!(names, vec!["../", "Docs/", "alpha.txt", "zeta.txt"]);
    assert_eq!(e.selected_idx(), 0);
    // toggle hidden files: the listing must be read again
    let ctrl_dot = KeyInput { code: KeyCode::Char('.'), ctrl: true, alt: false, shift: false, kind: KeyKind::Press };
    assert_eq!(e.handle(ctrl_dot), Some("/home/u".to_string()));
    e.refresh(entries);
    let names: Vec<&str> = e.files().iter().map(|f| f.name()).collect();
    assert_eq!(names, vec!["../", ".cache/", "Docs/", "alpha.txt", "zeta.txt"]);
    assert_eq!(e.handle(press(KeyCode::Char('j'))), None);
    assert_eq!(e.handle(press(KeyCode::End)), None);
    assert_eq!(e.selected_idx(), 4);
    assert_eq!(e.current().name(), "zeta.txt");
    assert_eq!(e.handle(press(KeyCode::Enter)), None);
    assert_eq!(e.handle(press(KeyCode::Home)), None);
    assert_eq!(e.handle(press(KeyCode::Down)), None);
    assert_eq!(e.handle(press(KeyCode::Right)), Some("/home/u/.cache".to_string()));
    assert_eq!(e.cwd(), "/home/u/.cache");
    assert_eq!(e.handle(press(KeyCode::Left)), Some("/home/u".to_string()));
}

#[test]
fn file_accessors() {
    let f = File::from(FileEntry {
        name: "a.png".to_string(),
        path: "/p/a.png".to_string(),
        is_dir: false,
        is_hidden: false,
        metadata: Some(meta(2048, false)),
    });
    assert_eq!((f.name(), f.path(), f.is_dir(), f.is_file(), f.is_hidden()), ("a.png", "/p/a.png", false, true, false));
    assert_eq!(f.metadata().map(|m| m.size), Some(2048));
    assert_eq!(
        status_line(&f, None),
        " Path: /p/a.png │ Type: File │ Size: 2.00 KB │ Modified: 1970-01-02 00:00:00"
    );
    assert_eq!(status_line(&f, Some("oops")), " ERROR: oops");
    let up = File::from(FileEntry { name: "../".to_string(), path: "/".to_string(), is_dir: true, is_hidden: false, metadata: None });
    assert_eq!(status_line(&up, None), " Path: / │ Type: Parent Dir");
}

#[test]
fn images_by_extension() {
    assert!(is_image_file("/x/photo.PNG"));
    assert!(is_image_file("a.jpeg"));
    assert!(is_image_file("b.WebP"));
    assert!(!is_image_file("notes.txt"));
    assert!(!is_image_file(".png"));
    assert!(!is_image_file("png"));
}

#[test]
fn browser_keys() {
    let mut s = BrowserState::new(false);
    assert_eq!(s.on_key(press(KeyCode::Tab), false, false), BrowserAction::Nothing);
    assert_eq!(s.focus, Pane::Local);
    let mut s = BrowserState::new(true);
    assert_eq!(s.on_key(press(KeyCode::Tab), false, false), BrowserAction::Nothing);
    assert_eq!(s.focus, Pane::Remote);
    assert_eq!(s.on_key(press(KeyCode::Char(' ')), true, false), BrowserAction::Explorer(press(KeyCode::Right)));
    assert_eq!(s.on_key(press(KeyCode::Char(' ')), false, true), BrowserAction::LoadImage);
    assert_eq!(s.preview, Preview::Off);
    s.on_image_loaded(true);
    assert_eq!(s.preview, Preview::Image);
    assert_eq!(s.on_key(press(KeyCode::Char('q')), false, false), BrowserAction::Nothing);
    assert_eq!(s.preview, Preview::Off);
    assert_eq!(s.on_key(press(KeyCode::Char(' ')), false, false), BrowserAction::LoadText);
    assert_eq!(s.preview, Preview::Text);
    assert_eq!(s.on_key(press(KeyCode::Down), false, false), BrowserAction::Scroll);
    assert_eq!(s.on_key(press(KeyCode::Esc), false, false), BrowserAction::Nothing);
    let toggle = KeyInput { code: KeyCode::Char('.'), ctrl: true, alt: false, shift: false, kind: KeyKind::Press };
    assert_eq!(s.on_key(press(KeyCode::Char('h')), false, false), BrowserAction::Explorer(toggle));
    assert_eq!(s.on_key(press(KeyCode::Char('j')), false, false), BrowserAction::Explorer(press(KeyCode::Char('j'))));
    let ctrl_c = KeyInput { code: KeyCode::Char('c'), ctrl: true, alt: false, shift: false, kind: KeyKind::Press };
    assert_eq!(s.on_key(ctrl_c, false, false), BrowserAction::Quit);
    assert_eq!(s.on_key(press(KeyCode::Char('q')), false, false), BrowserAction::Quit);
    assert_eq!(image_error_text("bad"), "Failed to load image: bad");
    assert!(!error_expired(2));
    assert!(error_expired(3));
}

#[test]
fn cache_paths_and_checks() {
    assert_eq!(cache_dir_in("/tmp"), "/tmp/kerr_cache");
    let c = FileCache::with_dir("/tmp/kerr_cache".to_string());
    assert_eq!(c.get_cached_path("ab12"), "/tmp/kerr_cache/ab12");
    assert_eq!(c.get_cached_path_with_ext("ab12", "/r/pic.jpg"), "/tmp/kerr_cache/ab12.jpg");
    assert_eq!(c.get_cached_path_with_ext("ab12", "/r/Makefile"), "/tmp/kerr_cache/ab12");
    let data = b"content";
    let h = blake3::hash(data).to_hex().to_string();
    assert_eq!(c.verify_fetched(&h, data), Ok(()));
    assert_eq!(c.verify_fetched("00", data), Err(CacheError::HashMismatch));
    assert_eq!(CacheError::HashMismatch.message(), "Hash mismatch: file may have been modified during transfer");
}

#[test]
fn remote_file_operations() {
    assert!(matches!(fs_request(FsOp::ReadDir, "/a".to_string()), kerr::protocol::ClientMessage::FsReadDir { .. }));
    match fs_reply(FsOp::ReadDir, ServerMessage::FsDirListing { entries_json: "[]".to_string() }) {
        FsReply::Listing(j) => assert_eq!(j, "[]"),
        other => panic!("got {:?}", other),
    }
    assert!(matches!(fs_reply(FsOp::Metadata, ServerMessage::FsDirListing { entries_json: "[]".to_string() }), FsReply::Unexpected));
    assert!(matches!(fs_reply(FsOp::ReadFile, ServerMessage::FsError { message: "x".to_string() }), FsReply::FsError(_)));
    match fs_result(FsOp::HashFile, ServerMessage::UploadAck) {
        Err(KerrError::FileSystemError(m)) => assert_eq!(m, "Unexpected response"),
        other => panic!("got {:?}", other),
    }
    match delete_result(ServerMessage::FsDeleteResponse { success: false }) {
        Err(e) => assert_eq!(e.message(), "File system error: Delete failed"),
        Ok(()) => panic!(),
    }
    assert!(delete_result(ServerMessage::FsDeleteResponse { success: true }).is_ok());
    match upload_ack_result(ServerMessage::EndDownload) {
        Err(KerrError::FileSystemError(m)) => assert_eq!(m, "Expected UploadAck"),
        other => panic!("got {:?}", other),
    }
    let m = IosMetadata { size: 1, created_timestamp: None, modified_timestamp: None, is_dir: false };
    assert!(matches!(exists_from(Ok(m)), Ok(true)));
    assert!(matches!(exists_from(Err(KerrError::FileSystemError("no".to_string()))), Ok(false)));
    assert!(matches!(exists_from(Err(KerrError::Timeout)), Err(KerrError::Timeout)));
}

#[test]
fn mobile_records() {
    let j = vec![JsonFileEntry {
        name: "a".to_string(),
        path: "/a".to_string(),
        is_dir: false,
        is_hidden: false,
        metadata: Some(JsonFileMetadata {
            size: 9,
            created: None,
            modified: Some(JsonSystemTime { secs_since_epoch: 77, nanos_since_epoch: 5 }),
            is_dir: false,
        }),
    }];
    let e = entries_from_json(&j);
    assert_eq!(e.len(), 1);
    let m = e[0].metadata.as_ref().unwrap();
    assert_eq!((m.size, m.created_timestamp, m.modified_timestamp), (9, None, Some(77)));
    assert_eq!(KerrError::Timeout.message(), "Operation timed out");
    assert_eq!(KerrError::ShellError("x".to_string()).message(), "Shell error: x");
    assert_eq!(valid_connection_string_text(), "Valid connection string");
    match json_parse_error("eof", "{") {
        KerrError::InvalidConnectionString(m) => assert_eq!(m, "json parse failed: eof (json was: {)"),
        _ => panic!(),
    }
    let cs = kerr::connstr::json_to_connection_string("{\"a\":1}");
    assert_eq!(decode_addr_json(&format!("  {}\n", cs)).unwrap(), "{\"a\":1}");
    match decode_addr_json("!!") {
        Err(KerrError::InvalidConnectionString(m)) => assert!(m.starts_with("base64 decode failed: ")),
        other => panic!("got {:?}", other),
    }
    match decode_addr_json("aGVsbG8") {
        Err(KerrError::InvalidConnectionString(m)) => assert!(m.starts_with("gzip decompress failed: ")),
        other => panic!("got {:?}", other),
    }
    let env = MessageEnvelope { session_id: "shell_1".to_string(), payload: MessagePayload::Server(ServerMessage::Output { data: b"hi".to_vec() }) };
    assert!(matches!(shell_event(env.clone(), "shell_1"), ShellEvent::Output(ref t) if t == "hi"));
    assert!(matches!(shell_event(env, "shell_2"), ShellEvent::Ignore));
}

#[test]
fn debug_log_records() {
    assert_eq!(log_line("12:00", "abcd1234", "PTY_EOF"), "[12:00] [abcd1234] PTY_EOF\n");
    let r = log_pty_read("s", 12);
    assert_eq!((r.session_id.as_str(), r.message.as_str()), ("s", "PTY_READ: 12 bytes from bash"));
    let r = log_debug("s", "free text");
    assert_eq!(r.message, "free text");
    let r = log_pty_creation_start("s", 80, 24);
    assert_eq!(r.message, "PTY_CREATE_START: cols=80, rows=24");
    let r = log_quic_write_failed("s", 10, "reset");
    assert_eq!(r.message, "QUIC_WRITE_FAILED: 10 bytes, error=reset");
}

#[test]
fn file_browser_requests() {
    use_browser_requests();
}

fn use_browser_requests() {
    let r = kerr::remotefs::browser_request(kerr::protocol::ClientMessage::FsDelete { path: "/x".to_string() });
    assert!(matches!(r, kerr::remotefs::BrowserRequest::Op(FsOp::Delete, ref p) if p == "/x"));
    assert!(matches!(
        kerr::remotefs::browser_request(kerr::protocol::ClientMessage::Disconnect),
        kerr::remotefs::BrowserRequest::Disconnect
    ));
    assert!(matches!(
        kerr::remotefs::browser_request(kerr::protocol::ClientMessage::EndUpload),
        kerr::remotefs::BrowserRequest::Unexpected
    ));
    match kerr::remotefs::fs_failure(FsOp::HashFile, "nope") {
        ServerMessage::FsError { message } => assert_eq!(message, "Failed to hash file: nope"),
        _ => panic!(),
    }
    match kerr::remotefs::unexpected_request_reply() {
        ServerMessage::Error { message } => assert_eq!(message, "Unexpected message type"),
        _ => panic!(),
    }
}

#[test]
fn delete_key_removes_the_selected_file() {
    // The browser turns `d` into a delete of the focused pane's selection.
    let mut s = BrowserState::new(true);
    assert_eq!(s.on_key(press(KeyCode::Char('d')), false, false), BrowserAction::Delete);
    assert_eq!(s, BrowserState::new(true));
    let ctrl_d = KeyInput { code: KeyCode::Char('d'), ctrl: true, alt: false, shift: false, kind: KeyKind::Press };
    assert_eq!(s.on_key(ctrl_d, false, false), BrowserAction::Explorer(ctrl_d));
    // The explorer names the selected entry as the target, never `../`.
    let mut e = FileExplorer::new("/home/u".to_string());
    e.refresh(vec![
        make_entry("a.txt", "/home/u/a.txt".to_string(), false, meta(1, false)),
        make_entry("b.txt", "/home/u/b.txt".to_string(), false, meta(2, false)),
    ]);
    assert_eq!(e.delete_target(), None);
    assert_eq!(e.handle(press(KeyCode::End)), None);
    let target = e.delete_target().unwrap();
    assert_eq!(target, "/home/u/b.txt");
    // The deleted file leaves the listing and the selection stays in range.
    e.remove_listed(&target);
    let names: Vec<&str> = e.files().iter().map(|f| f.name()).collect();
    assert_eq!(names, vec!["../", "a.txt"]);
    assert_eq!(e.selected_idx(), 1);
    assert_eq!(e.current().path(), "/home/u/a.txt");
    // The remote pane asks the server to delete it.
    assert!(matches!(
        fs_request(FsOp::Delete, target.clone()),
        kerr::protocol::ClientMessage::FsDelete { path } if path == "/home/u/b.txt"
    ));
    let empty = FileExplorer::new("/".to_string());
    assert_eq!(empty.delete_target(), None);
}

#[test]
fn enter_views_a_file() {
    let mut s = BrowserState::new(false);
    assert_eq!(s.on_key(press(KeyCode::Enter), true, false), BrowserAction::Explorer(press(KeyCode::Enter)));
    assert_eq!(s.on_key(press(KeyCode::Enter), false, true), BrowserAction::LoadImage);
    assert_eq!(s.on_key(press(KeyCode::Enter), false, false), BrowserAction::LoadText);
    assert_eq!(s.preview, Preview::Text);
}

#[test]
fn hash_reply_is_blake3_of_the_contents() {
    match kerr::remotefs::file_hash_reply(b"abc") {
        ServerMessage::FsHashResponse { hash } => {
            assert_eq!(hash, "6437b3ac38465133ffb63b75273a8db548c558465d79db03fd359c6cd5bd9d85");
            assert_eq!(hash, blake3::hash(b"abc").to_hex().to_string());
        }
        other => panic!("got {:?}", other),
    }
    match kerr::remotefs::file_hash_reply(b"") {
        ServerMessage::FsHashResponse { hash } => assert_eq!(hash.len(), 64),
        other => panic!("got {:?}", other),
    }
}

#[test]
fn base64_texts_follow_the_alphabets() {
    // Not UTF-8: sent as standard, padded Base64.
    assert_eq!(kerr::web::file_content_text(&[0xff, 0xfe]), "//4=");
    assert_eq!(kerr::web::file_content_text(&[0xff, 0xfe, 0xfd]), "//79");
    // A state token: 32 bytes in 43 URL-safe characters.
    let t = kerr::auth::generate_state_token();
    assert_eq!(t.len(), 43);
    assert!(t.chars().all(|c| c.is_ascii_alphanumeric() || c == '-' || c == '_'));
}
