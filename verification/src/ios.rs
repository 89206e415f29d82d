//! The mobile client's view of Kerr: its error type, its file records, and
//! how it reads connection strings and the answers of a remote host.
use vstd::prelude::*;
use crate::codec::{base64_url_decoding, base64_url_decode_error, gunzip_text_of, gunzip_error_of};
use crate::connstr::{carried_json, connection_string_to_json, ConnectionStringError};
use crate::protocol::{MessageEnvelope, MessagePayload, ServerMessage};
use crate::remotefs::{FsOp, FsReply, fs_reply, answers, reply_of};
use crate::stdtext::{utf8_lossy, from_utf8_lossy};
use crate::text::{chars_of, chars_eq, concat2, string_of, trim_chars, trimmed};

verus! {

/// Errors of the mobile client.
#[derive(Debug)]
pub enum KerrError {
    ConnectionFailed(String),
    InvalidConnectionString(String),
    FileSystemError(String),
    ShellError(String),
    NetworkError(String),
    Timeout,
}

/// The text of an error of the mobile client.
pub open spec fn kerr_error_text(e: KerrError) -> Seq<char> {
    match e {
        KerrError::ConnectionFailed(m) => "Connection failed: "@ + m@,
        KerrError::InvalidConnectionString(m) => "Invalid connection string: "@ + m@,
        KerrError::FileSystemError(m) => "File system error: "@ + m@,
        KerrError::ShellError(m) => "Shell error: "@ + m@,
        KerrError::NetworkError(m) => "Network error: "@ + m@,
        KerrError::Timeout => "Operation timed out"@,
    }
}

impl KerrError {
    /// The text of the error.
    pub fn message(&self) -> (r: String)
        ensures
            r@ == kerr_error_text(*self),
    {
        match self {
            KerrError::ConnectionFailed(m) => concat2("Connection failed: ", m.as_str()),
            KerrError::InvalidConnectionString(m) => concat2("Invalid connection string: ", m.as_str()),
            KerrError::FileSystemError(m) => concat2("File system error: ", m.as_str()),
            KerrError::ShellError(m) => concat2("Shell error: ", m.as_str()),
            KerrError::NetworkError(m) => concat2("Network error: ", m.as_str()),
            KerrError::Timeout => "Operation timed out".to_owned(),
        }
    }

    /// The error of a failed network operation, from its message.
    pub fn from_message(message: String) -> (e: KerrError)
        ensures
            e matches KerrError::NetworkError(m) && m@ == message@,
    {
        KerrError::NetworkError(message)
    }
}

/// Metadata of a remote file, with times in whole seconds since the epoch.
#[derive(Debug)]
pub struct FileMetadata {
    pub size: u64,
    pub created_timestamp: Option<u64>,
    pub modified_timestamp: Option<u64>,
    pub is_dir: bool,
}

/// An entry of a remote directory.
#[derive(Debug)]
pub struct FileEntry {
    pub name: String,
    pub path: String,
    pub is_dir: bool,
    pub is_hidden: bool,
    pub metadata: Option<FileMetadata>,
}

/// A time as the server writes it.
#[derive(Clone, Copy, Debug)]
pub struct JsonSystemTime {
    pub secs_since_epoch: u64,
    pub nanos_since_epoch: u32,
}

/// Metadata as the server writes it.
#[derive(Debug)]
pub struct JsonFileMetadata {
    pub size: u64,
    pub created: Option<JsonSystemTime>,
    pub modified: Option<JsonSystemTime>,
    pub is_dir: bool,
}

/// A directory entry as the server writes it.
#[derive(Debug)]
pub struct JsonFileEntry {
    pub name: String,
    pub path: String,
    pub is_dir: bool,
    pub is_hidden: bool,
    pub metadata: Option<JsonFileMetadata>,
}

/// The whole seconds of an optional time.
pub open spec fn secs_of(t: Option<JsonSystemTime>) -> Option<u64> {
    match t {
        Some(x) => Some(x.secs_since_epoch),
        None => None,
    }
}

/// Whether `m` is the metadata read from `j`.
pub open spec fn metadata_from(m: FileMetadata, j: JsonFileMetadata) -> bool {
    &&& m.size == j.size
    &&& m.created_timestamp == secs_of(j.created)
    &&& m.modified_timestamp == secs_of(j.modified)
    &&& m.is_dir == j.is_dir
}

/// Whether `e` is the entry read from `j`.
pub open spec fn entry_from(e: FileEntry, j: JsonFileEntry) -> bool {
    &&& e.name@ == j.name@
    &&& e.path@ == j.path@
    &&& e.is_dir == j.is_dir
    &&& e.is_hidden == j.is_hidden
    &&& match j.metadata {
        Some(jm) => e.metadata matches Some(m) && metadata_from(m, jm),
        None => e.metadata is None,
    }
}

impl FileMetadata {
    /// The metadata the server wrote, with times cut to whole seconds.
    pub fn from_json(json: &JsonFileMetadata) -> (m: Self)
        ensures
            metadata_from(m, *json),
    {
        FileMetadata {
            size: json.size,
            created_timestamp: match json.created {
                Some(t) => Some(t.secs_since_epoch),
                None => None,
            },
            modified_timestamp: match json.modified {
                Some(t) => Some(t.secs_since_epoch),
                None => None,
            },
            is_dir: json.is_dir,
        }
    }
}

impl FileEntry {
    /// The entry the server wrote.
    pub fn from_json(json: &JsonFileEntry) -> (e: Self)
        ensures
            entry_from(e, *json),
    {
        FileEntry {
            name: json.name.clone(),
            path: json.path.clone(),
            is_dir: json.is_dir,
            is_hidden: json.is_hidden,
            metadata: match &json.metadata {
                Some(m) => Some(FileMetadata::from_json(m)),
                None => None,
            },
        }
    }
}

/// The entries the server wrote, in order.
pub fn entries_from_json(json: &Vec<JsonFileEntry>) -> (r: Vec<FileEntry>)
    ensures
        r@.len() == json@.len(),
        forall|i: int| 0 <= i < r@.len() ==> entry_from(#[trigger] r@[i], json@[i]),
{
    let mut r: Vec<FileEntry> = Vec::new();
    let mut i: usize = 0;
    while i < json.len()
        invariant
            i <= json@.len(),
            r@.len() == i,
            forall|k: int| 0 <= k < i ==> entry_from(#[trigger] r@[k], json@[k]),
        decreases json.len() - i,
    {
        r.push(FileEntry::from_json(&json[i]));
        i = i + 1;
    }
    r
}

/// The error for a listing the client cannot parse.
pub fn entries_parse_error(detail: &str) -> (e: KerrError)
    ensures
        e matches KerrError::FileSystemError(m) && m@ == "Failed to parse entries: "@ + detail@,
{
    KerrError::FileSystemError(concat2("Failed to parse entries: ", detail))
}

/// The error for metadata the client cannot parse.
pub fn metadata_parse_error(detail: &str) -> (e: KerrError)
    ensures
        e matches KerrError::FileSystemError(m) && m@ == "Failed to parse metadata: "@ + detail@,
{
    KerrError::FileSystemError(concat2("Failed to parse metadata: ", detail))
}

/// The JSON address a pasted connection string carries, once surrounding
/// white space is removed.
pub fn decode_addr_json(conn_str: &str) -> (r: Result<String, KerrError>)
    ensures
        match r {
            Ok(j) => carried_json(trimmed(conn_str@)) == Some(j@),
            Err(KerrError::InvalidConnectionString(m)) => match base64_url_decoding(trimmed(conn_str@)) {
                None => m@ == "base64 decode failed: "@ + base64_url_decode_error(trimmed(conn_str@)),
                Some(b) => gunzip_text_of(b) is None && m@ == "gzip decompress failed: "@ + gunzip_error_of(b),
            },
            Err(_) => false,
        },
{
    let v = chars_of(conn_str);
    let t = trim_chars(v.as_slice());
    let text = string_of(t.as_slice());
    match connection_string_to_json(text.as_str()) {
        Ok(j) => Ok(j),
        Err(ConnectionStringError::Base64(m)) => {
            Err(KerrError::InvalidConnectionString(concat2("base64 decode failed: ", m.as_str())))
        },
        Err(ConnectionStringError::Gzip(m)) => {
            Err(KerrError::InvalidConnectionString(concat2("gzip decompress failed: ", m.as_str())))
        },
    }
}

/// The error for an address that is not valid JSON of a node address.
pub fn json_parse_error(detail: &str, json: &str) -> (e: KerrError)
    ensures
        e matches KerrError::InvalidConnectionString(m)
            && m@ == "json parse failed: "@ + detail@ + " (json was: "@ + json@ + ")"@,
{
    let a = concat2("json parse failed: ", detail);
    let b = concat2(a.as_str(), " (json was: ");
    let c = concat2(b.as_str(), json);
    KerrError::InvalidConnectionString(concat2(c.as_str(), ")"))
}

/// The answer to a checked connection string.
pub fn valid_connection_string_text() -> (r: String)
    ensures
        r@ == "Valid connection string"@,
{
    "Valid connection string".to_owned()
}

/// The mobile client's reading of the answer to a file operation: the
/// expected answer's content, else a file-system error (`Unexpected
/// response` when the answer does not fit).
pub fn fs_result(op: FsOp, msg: ServerMessage) -> (r: Result<FsReply, KerrError>)
    ensures
        answers(op, msg) ==> (r matches Ok(reply) && reply_of(op, msg, reply)),
        !answers(op, msg) ==> match msg {
            ServerMessage::FsError { message } => r matches Err(KerrError::FileSystemError(m)) && m@ == message@,
            ServerMessage::Error { message } => r matches Err(KerrError::FileSystemError(m)) && m@ == message@,
            _ => r matches Err(KerrError::FileSystemError(m)) && m@ == "Unexpected response"@,
        },
        r matches Ok(reply) ==> answers(op, msg) && !(reply is FsError) && !(reply is Error) && !(reply is Unexpected),
{
    let answered = match (&msg, op) {
        (ServerMessage::FsDirListing { .. }, FsOp::ReadDir) => true,
        (ServerMessage::FsMetadataResponse { .. }, FsOp::Metadata) => true,
        (ServerMessage::FsFileContent { .. }, FsOp::ReadFile) => true,
        (ServerMessage::FsHashResponse { .. }, FsOp::HashFile) => true,
        (ServerMessage::FsDeleteResponse { .. }, FsOp::Delete) => true,
        _ => false,
    };
    let reply = fs_reply(op, msg);
    if answered {
        return Ok(reply);
    }
    match reply {
        FsReply::FsError(m) => Err(KerrError::FileSystemError(m)),
        FsReply::Error(m) => Err(KerrError::FileSystemError(m)),
        _ => Err(KerrError::FileSystemError("Unexpected response".to_owned())),
    }
}

/// The outcome of a delete: its confirmation, `Delete failed` when the
/// remote reports failure.
pub fn delete_result(msg: ServerMessage) -> (r: Result<(), KerrError>)
    ensures
        match msg {
            ServerMessage::FsDeleteResponse { success } => if success {
                r is Ok
            } else {
                r matches Err(KerrError::FileSystemError(m)) && m@ == "Delete failed"@
            },
            ServerMessage::FsError { message } => r matches Err(KerrError::FileSystemError(m)) && m@ == message@,
            ServerMessage::Error { message } => r matches Err(KerrError::FileSystemError(m)) && m@ == message@,
            _ => r matches Err(KerrError::FileSystemError(m)) && m@ == "Unexpected response"@,
        },
{
    match msg {
        ServerMessage::FsDeleteResponse { success } => {
            if success {
                Ok(())
            } else {
                Err(KerrError::FileSystemError("Delete failed".to_owned()))
            }
        },
        ServerMessage::FsError { message } => Err(KerrError::FileSystemError(message)),
        ServerMessage::Error { message } => Err(KerrError::FileSystemError(message)),
        _ => Err(KerrError::FileSystemError("Unexpected response".to_owned())),
    }
}

/// The outcome of an upload's start: the server's acknowledgement.
pub fn upload_ack_result(msg: ServerMessage) -> (r: Result<(), KerrError>)
    ensures
        match msg {
            ServerMessage::UploadAck => r is Ok,
            ServerMessage::Error { message } => r matches Err(KerrError::FileSystemError(m)) && m@ == message@,
            _ => r matches Err(KerrError::FileSystemError(m)) && m@ == "Expected UploadAck"@,
        },
{
    match msg {
        ServerMessage::UploadAck => Ok(()),
        ServerMessage::Error { message } => Err(KerrError::FileSystemError(message)),
        _ => Err(KerrError::FileSystemError("Expected UploadAck".to_owned())),
    }
}

/// Whether a path exists, from the outcome of asking for its metadata: a
/// file-system error means it does not; other errors are passed on.
pub fn exists_from(metadata: Result<FileMetadata, KerrError>) -> (r: Result<bool, KerrError>)
    ensures
        match metadata {
            Ok(_) => r == Ok::<bool, KerrError>(true),
            Err(KerrError::FileSystemError(_)) => r == Ok::<bool, KerrError>(false),
            Err(e) => r == Err::<bool, KerrError>(e),
        },
{
    match metadata {
        Ok(_) => Ok(true),
        Err(KerrError::FileSystemError(_)) => Ok(false),
        Err(e) => Err(e),
    }
}

/// What the mobile shell does with an envelope from the server.
#[derive(Debug)]
pub enum ShellEvent {
    /// Show this output.
    Output(String),
    /// Show this error.
    Error(String),
    /// Not for this session, or nothing to show.
    Ignore,
}

/// Reads an envelope for the shell session `session_id`: output (invalid
/// UTF-8 replaced) and errors of this session are shown; anything else is
/// ignored.
pub fn shell_event(envelope: MessageEnvelope, session_id: &str) -> (r: ShellEvent)
    ensures
        envelope.session_id@ != session_id@ ==> r is Ignore,
        envelope.session_id@ == session_id@ ==> match envelope.payload {
            MessagePayload::Server(ServerMessage::Output { data }) => r matches ShellEvent::Output(t) && t@ == utf8_lossy(data@),
            MessagePayload::Server(ServerMessage::Error { message }) => r matches ShellEvent::Error(m) && m@ == message@,
            _ => r is Ignore,
        },
{
    let a = chars_of(envelope.session_id.as_str());
    let b = chars_of(session_id);
    if !chars_eq(a.as_slice(), b.as_slice()) {
        return ShellEvent::Ignore;
    }
    match envelope.payload {
        MessagePayload::Server(ServerMessage::Output { data }) => ShellEvent::Output(from_utf8_lossy(data.as_slice())),
        MessagePayload::Server(ServerMessage::Error { message }) => ShellEvent::Error(message),
        _ => ShellEvent::Ignore,
    }
}

/// What the mobile app implements to receive a shell's output.
pub trait ShellCallback {
    fn on_output(&self, data: String);
    fn on_error(&self, message: String);
    fn on_close(&self);
}

} // verus!
