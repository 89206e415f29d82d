use kerr::protocol::{ClientMessage, ServerMessage};
use kerr::transfer::{
    download_start_reply, files_error_reply, get_resume_metadata_path, is_confirmation, output_plan, resume_matches,
    pull_destination, pull_offset, resume_part, upload_destination, upload_reply, OutputPlan, PathFacts, PrepareOutcome, PullProgress, PullStep,
    ResumeMetadata, TransferAction, TransferSession, UploadReply, CHUNK_SIZE,
};

fn facts(exists: bool, is_dir: bool) -> PathFacts {
    PathFacts { exists, is_dir }
}

fn start(path: &str, force: bool) -> ClientMessage {
    ClientMessage::StartUpload { path: path.to_string(), size: 10, is_dir: false, force }
}

#[test]
fn chunk_size_is_64_kib() {
    assert_eq!(CHUNK_SIZE, 65536);
}

#[test]
fn upload_destination_follows_trailing_slash() {
    assert_eq!(upload_destination("/remote/dir/", "/home/me/a.txt", false), "/remote/dir/a.txt");
    assert_eq!(upload_destination("/remote/b.txt", "/home/me/a.txt", false), "/remote/b.txt");
    assert_eq!(upload_destination("/remote/dir/", "/home/me/folder", true), "/remote/dir/");
}

#[test]
fn overwrite_answers() {
    assert!(is_confirmation("y\n"));
    assert!(is_confirmation(" Y "));
    assert!(!is_confirmation("yes"));
    assert!(!is_confirmation(""));
    assert!(!is_confirmation("n"));
}

#[test]
fn upload_replies_are_read() {
    assert!(matches!(upload_reply(ServerMessage::UploadAck), UploadReply::Proceed));
    match upload_reply(ServerMessage::ConfirmPrompt { message: "sure?".to_string() }) {
        UploadReply::Confirm { message } => assert_eq!(message, "sure?"),
        _ => panic!("expected a confirmation"),
    }
    match upload_reply(ServerMessage::Error { message: "bad".to_string() }) {
        UploadReply::Refused { message } => assert_eq!(message, "bad"),
        _ => panic!("expected a refusal"),
    }
    assert!(matches!(upload_reply(ServerMessage::EndDownload), UploadReply::Unexpected));
}

#[test]
fn resume_metadata_path_sits_beside_the_file() {
    assert_eq!(get_resume_metadata_path("/tmp/data/file.bin"), "/tmp/data/.file.bin.resume_json");
    assert_eq!(get_resume_metadata_path("file.bin"), ".file.bin.resume_json");
    assert_eq!(get_resume_metadata_path("dir/sub/x"), "dir/sub/.x.resume_json");
}

#[test]
fn resume_offsets_and_plans() {
    let m = ResumeMetadata { bytes_received: 300, total_size: 1000, remote_path: "/r/f".to_string() };
    assert_eq!(pull_offset(&Some(m.clone()), "/r/f", Some(300)), 300);
    assert_eq!(pull_offset(&Some(m.clone()), "/r/f", Some(200)), 0);
    assert_eq!(pull_offset(&Some(m.clone()), "/r/f", None), 0);
    assert_eq!(pull_offset(&Some(m.clone()), "/r/g", Some(300)), 0);
    assert_eq!(pull_offset(&None, "/r/f", Some(300)), 0);
    assert!(resume_matches(&m, "/r/f"));
    assert!(!resume_matches(&m, "/r/g"));
    assert_eq!(output_plan(0, 55), OutputPlan::Create);
    assert_eq!(output_plan(300, 300), OutputPlan::Append);
    assert_eq!(output_plan(300, 200), OutputPlan::Restart);
}

#[test]
fn pull_checkpoints_every_tenth_chunk() {
    let mut p = PullProgress::new(5, 1000, "/r/f".to_string());
    for i in 1..=20u64 {
        let step = p.on_message(&ServerMessage::FileChunk { data: vec![0u8; 3] });
        match step {
            PullStep::Write { checkpoint } => {
                if i % 10 == 0 {
                    let c = checkpoint.expect("checkpoint");
                    assert_eq!(c.bytes_received, 5 + 3 * i);
                    assert_eq!(c.total_size, 1000);
                    assert_eq!(c.remote_path, "/r/f");
                } else {
                    assert!(checkpoint.is_none());
                }
            }
            _ => panic!("expected a write"),
        }
    }
    assert_eq!(p.bytes_received, 65);
    assert!(matches!(p.on_message(&ServerMessage::EndDownload), PullStep::Complete));
    match p.on_message(&ServerMessage::Error { message: "gone".to_string() }) {
        PullStep::Failed { message, checkpoint } => {
            assert_eq!(message, "gone");
            assert_eq!(checkpoint.bytes_received, 65);
        }
        _ => panic!("expected a failure"),
    }
    match p.on_message(&ServerMessage::UploadAck) {
        PullStep::Interrupted { checkpoint } => assert_eq!(checkpoint.bytes_received, 65),
        _ => panic!("expected an interruption"),
    }
}

#[test]
fn existing_file_is_not_overwritten_without_confirmation() {
    let mut s = TransferSession::new();
    match s.on_message(&start("/srv/a.txt", false), facts(true, false)) {
        TransferAction::Reply(ServerMessage::ConfirmPrompt { message }) => {
            assert_eq!(message, "File '/srv/a.txt' already exists. Overwrite?")
        }
        other => panic!("expected a prompt, got {:?}", other),
    }
    // the next message is the answer; the path asked about is the pending one
    assert_eq!(s.subject_path(&ClientMessage::Disconnect), Some("/srv/a.txt".to_string()));
    match s.on_message(&ClientMessage::ConfirmResponse { confirmed: true }, facts(true, false)) {
        TransferAction::Prepare { path, parent } => {
            assert_eq!(path, "/srv/a.txt");
            assert_eq!(parent, Some("/srv".to_string()));
        }
        other => panic!("expected preparation, got {:?}", other),
    }
    assert!(matches!(s.on_prepared("/srv/a.txt".to_string(), PrepareOutcome::Ready), ServerMessage::UploadAck));
    assert_eq!(s.upload_path().map(|p| p.as_str()), Some("/srv/a.txt"));
    assert!(matches!(s.on_message(&ClientMessage::FileChunk { data: vec![1, 2] }, facts(false, false)), TransferAction::WriteChunk));
    match s.on_message(&ClientMessage::EndUpload, facts(false, false)) {
        TransferAction::FinishUpload { path } => assert_eq!(path, Some("/srv/a.txt".to_string())),
        other => panic!("expected finish, got {:?}", other),
    }
    assert!(s.upload_path().is_none());
}

#[test]
fn declined_or_other_answer_cancels_the_upload() {
    let mut s = TransferSession::new();
    let _ = s.on_message(&start("/srv/a.txt", false), facts(true, false));
    assert!(matches!(s.on_message(&ClientMessage::ConfirmResponse { confirmed: false }, facts(true, false)), TransferAction::Ignore));
    let _ = s.on_message(&start("/srv/a.txt", false), facts(true, false));
    assert!(matches!(s.on_message(&ClientMessage::EndUpload, facts(true, false)), TransferAction::Ignore));
    assert!(s.upload_path().is_none());
    let _ = s.on_message(&start("/srv/a.txt", false), facts(true, false));
    s.on_undecodable();
    assert!(matches!(s.on_message(&ClientMessage::Disconnect, facts(false, false)), TransferAction::Close));
}

#[test]
fn forced_or_new_uploads_are_prepared_and_directories_refused() {
    let mut s = TransferSession::new();
    assert!(matches!(s.on_message(&start("/srv/a.txt", true), facts(true, false)), TransferAction::Prepare { .. }));
    assert!(matches!(s.on_message(&start("/srv/new.txt", false), facts(false, false)), TransferAction::Prepare { .. }));
    match s.on_message(&start("/srv", false), facts(true, true)) {
        TransferAction::Reply(ServerMessage::Error { message }) => assert_eq!(
            message,
            "Target path is an existing directory: /srv. Please specify a filename or use a path with trailing /"
        ),
        other => panic!("expected refusal, got {:?}", other),
    }
}

#[test]
fn chunks_without_upload_are_ignored_and_write_failures_close() {
    let mut s = TransferSession::new();
    assert!(matches!(s.on_message(&ClientMessage::FileChunk { data: vec![1] }, facts(false, false)), TransferAction::Ignore));
    let _ = s.on_prepared("/x".to_string(), PrepareOutcome::Ready);
    match s.on_write_failed("disk full") {
        ServerMessage::Error { message } => assert_eq!(message, "Failed to write to file: disk full"),
        _ => panic!(),
    }
    assert!(s.upload_path().is_none());
    match s.on_prepared("/y".to_string(), PrepareOutcome::DirsFailed("denied".to_string())) {
        ServerMessage::Error { message } => assert_eq!(message, "Failed to create directories: denied"),
        _ => panic!(),
    }
    match s.on_prepared("/y".to_string(), PrepareOutcome::CreateFailed("denied".to_string())) {
        ServerMessage::Error { message } => assert_eq!(message, "Failed to create file: denied"),
        _ => panic!(),
    }
    assert!(s.upload_path().is_none());
}

#[test]
fn downloads() {
    let mut s = TransferSession::new();
    let req = ClientMessage::RequestDownload { path: "/nope".to_string(), offset: 0 };
    match s.on_message(&req, facts(false, false)) {
        TransferAction::Reply(ServerMessage::Error { message }) => assert_eq!(message, "Path does not exist: /nope"),
        other => panic!("got {:?}", other),
    }
    match s.on_message(&req, facts(true, true)) {
        TransferAction::Download { path, is_dir, offset } => {
            assert_eq!(path, "/nope");
            assert!(is_dir);
            assert_eq!(offset, 0);
        }
        other => panic!("got {:?}", other),
    }
    assert!(matches!(download_start_reply(true, Ok(42)), ServerMessage::StartDownload { size: 42, is_dir: true }));
    match download_start_reply(false, Err("io".to_string())) {
        ServerMessage::Error { message } => assert_eq!(message, "Failed to calculate size: io"),
        _ => panic!(),
    }
    match files_error_reply("walk") {
        ServerMessage::Error { message } => assert_eq!(message, "Failed to read files: walk"),
        _ => panic!(),
    }
}

#[test]
fn resumed_download_carries_offset() {
    let mut s = TransferSession::new();
    let req = ClientMessage::RequestDownload { path: "/r/f".to_string(), offset: 7 };
    match s.on_message(&req, facts(true, false)) {
        TransferAction::Download { path, is_dir, offset } => {
            assert_eq!(path, "/r/f");
            assert!(!is_dir);
            assert_eq!(offset, 7);
        }
        other => panic!("got {:?}", other),
    }
}

#[test]
fn resume_parts_skip_what_the_client_has() {
    let chunk = [10u8, 11, 12, 13];
    assert_eq!(resume_part(0, &chunk, 0), vec![10, 11, 12, 13]);
    assert_eq!(resume_part(0, &chunk, 2), vec![12, 13]);
    assert_eq!(resume_part(0, &chunk, 4), Vec::<u8>::new());
    assert_eq!(resume_part(0, &chunk, 9), Vec::<u8>::new());
    assert_eq!(resume_part(4, &chunk, 2), vec![10, 11, 12, 13]);
    assert_eq!(resume_part(4, &chunk, 5), vec![11, 12, 13]);
}

#[test]
fn resumed_pull_reassembles_the_file() {
    // A remote file read in chunks of 3; the client already holds 5 bytes.
    let remote: Vec<u8> = (0u8..11).collect();
    let have = 5usize;
    let mut local: Vec<u8> = remote[..have].to_vec();
    let mut pos = 0u64;
    for chunk in remote.chunks(3) {
        local.extend(resume_part(pos, chunk, have as u64));
        pos += chunk.len() as u64;
    }
    assert_eq!(local, remote);
}

#[test]
fn pull_into_a_directory_keeps_the_name() {
    assert_eq!(pull_destination("/remote/file.txt", "./", false), "./file.txt");
    assert_eq!(pull_destination("/remote/file.txt", "downloads", true), "downloads/file.txt");
    assert_eq!(pull_destination("/remote/path/document.pdf", "./document.pdf", false), "./document.pdf");
    assert_eq!(pull_destination("/remote/path/logs", "./local-logs", false), "./local-logs");
}
