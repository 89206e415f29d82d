//! Browsing the files of a remote host: the requests sent for each file
//! operation and how their answers are read.
use vstd::prelude::*;
use crate::protocol::{ClientMessage, ServerMessage};
use crate::codec::{blake3_hex, blake3_hex_of};
use crate::text::concat2;

verus! {

/// The file operations a remote host answers.
#[derive(Clone, Copy, Debug, PartialEq, Eq, Structural)]
pub enum FsOp {
    ReadDir,
    Metadata,
    ReadFile,
    HashFile,
    Delete,
}

/// The request for an operation on `path`.
pub fn fs_request(op: FsOp, path: String) -> (m: ClientMessage)
    ensures
        match op {
            FsOp::ReadDir => m matches ClientMessage::FsReadDir { path: p } && p@ == path@,
            FsOp::Metadata => m matches ClientMessage::FsMetadata { path: p } && p@ == path@,
            FsOp::ReadFile => m matches ClientMessage::FsReadFile { path: p } && p@ == path@,
            FsOp::HashFile => m matches ClientMessage::FsHashFile { path: p } && p@ == path@,
            FsOp::Delete => m matches ClientMessage::FsDelete { path: p } && p@ == path@,
        },
{
    match op {
        FsOp::ReadDir => ClientMessage::FsReadDir { path },
        FsOp::Metadata => ClientMessage::FsMetadata { path },
        FsOp::ReadFile => ClientMessage::FsReadFile { path },
        FsOp::HashFile => ClientMessage::FsHashFile { path },
        FsOp::Delete => ClientMessage::FsDelete { path },
    }
}

/// How the answer to a file operation reads.
#[derive(Debug)]
pub enum FsReply {
    /// A directory listing, as JSON.
    Listing(String),
    /// Metadata, as JSON.
    Metadata(String),
    /// File content.
    Content(Vec<u8>),
    /// A content hash.
    Hash(String),
    /// Whether a delete succeeded.
    Deleted(bool),
    /// The remote file system failed; the message is also shown to the user.
    FsError(String),
    /// The session failed.
    Error(String),
    /// An answer that does not fit the request.
    Unexpected,
}

/// Whether a message is the expected answer to `op`.
pub open spec fn answers(op: FsOp, msg: ServerMessage) -> bool {
    match op {
        FsOp::ReadDir => msg is FsDirListing,
        FsOp::Metadata => msg is FsMetadataResponse,
        FsOp::ReadFile => msg is FsFileContent,
        FsOp::HashFile => msg is FsHashResponse,
        FsOp::Delete => msg is FsDeleteResponse,
    }
}

/// How the answer `msg` to `op` reads: the expected answer's content; else
/// a file-system error, a session error, or an unexpected answer.
pub open spec fn reply_of(op: FsOp, msg: ServerMessage, r: FsReply) -> bool {
    if answers(op, msg) {
        match msg {
            ServerMessage::FsDirListing { entries_json } => r matches FsReply::Listing(j) && j@ == entries_json@,
            ServerMessage::FsMetadataResponse { metadata_json } => r matches FsReply::Metadata(j) && j@ == metadata_json@,
            ServerMessage::FsFileContent { data } => r matches FsReply::Content(d) && d@ == data@,
            ServerMessage::FsHashResponse { hash } => r matches FsReply::Hash(h) && h@ == hash@,
            ServerMessage::FsDeleteResponse { success } => r matches FsReply::Deleted(s) && s == success,
            _ => false,
        }
    } else {
        match msg {
            ServerMessage::FsError { message } => r matches FsReply::FsError(m) && m@ == message@,
            ServerMessage::Error { message } => r matches FsReply::Error(m) && m@ == message@,
            _ => r is Unexpected,
        }
    }
}

/// Reads the answer to a file operation.
pub fn fs_reply(op: FsOp, msg: ServerMessage) -> (r: FsReply)
    ensures
        reply_of(op, msg, r),
{
    match msg {
        ServerMessage::FsDirListing { entries_json } => {
            if op == FsOp::ReadDir { FsReply::Listing(entries_json) } else { FsReply::Unexpected }
        },
        ServerMessage::FsMetadataResponse { metadata_json } => {
            if op == FsOp::Metadata { FsReply::Metadata(metadata_json) } else { FsReply::Unexpected }
        },
        ServerMessage::FsFileContent { data } => {
            if op == FsOp::ReadFile { FsReply::Content(data) } else { FsReply::Unexpected }
        },
        ServerMessage::FsHashResponse { hash } => {
            if op == FsOp::HashFile { FsReply::Hash(hash) } else { FsReply::Unexpected }
        },
        ServerMessage::FsDeleteResponse { success } => {
            if op == FsOp::Delete { FsReply::Deleted(success) } else { FsReply::Unexpected }
        },
        ServerMessage::FsError { message } => FsReply::FsError(message),
        ServerMessage::Error { message } => FsReply::Error(message),
        _ => FsReply::Unexpected,
    }
}

/// The text of the error for an answer that does not fit its request.
pub fn unexpected_reply_text() -> (r: String)
    ensures
        r@ == "Unexpected response type"@,
{
    "Unexpected response type".to_owned()
}

/// What the server's file-browser session does with a message.
#[derive(Debug)]
pub enum BrowserRequest {
    /// Carry out this operation on this path.
    Op(FsOp, String),
    /// The client leaves.
    Disconnect,
    /// Not a file-browser message: answered with an error.
    Unexpected,
}

/// Reads a message of a file-browser session.
pub fn browser_request(msg: ClientMessage) -> (r: BrowserRequest)
    ensures
        match msg {
            ClientMessage::FsReadDir { path } => r matches BrowserRequest::Op(FsOp::ReadDir, p) && p@ == path@,
            ClientMessage::FsMetadata { path } => r matches BrowserRequest::Op(FsOp::Metadata, p) && p@ == path@,
            ClientMessage::FsReadFile { path } => r matches BrowserRequest::Op(FsOp::ReadFile, p) && p@ == path@,
            ClientMessage::FsHashFile { path } => r matches BrowserRequest::Op(FsOp::HashFile, p) && p@ == path@,
            ClientMessage::FsDelete { path } => r matches BrowserRequest::Op(FsOp::Delete, p) && p@ == path@,
            ClientMessage::Disconnect => r is Disconnect,
            _ => r is Unexpected,
        },
{
    match msg {
        ClientMessage::FsReadDir { path } => BrowserRequest::Op(FsOp::ReadDir, path),
        ClientMessage::FsMetadata { path } => BrowserRequest::Op(FsOp::Metadata, path),
        ClientMessage::FsReadFile { path } => BrowserRequest::Op(FsOp::ReadFile, path),
        ClientMessage::FsHashFile { path } => BrowserRequest::Op(FsOp::HashFile, path),
        ClientMessage::FsDelete { path } => BrowserRequest::Op(FsOp::Delete, path),
        ClientMessage::Disconnect => BrowserRequest::Disconnect,
        _ => BrowserRequest::Unexpected,
    }
}

/// The message the server sends when an operation fails.
pub open spec fn fs_failure_text(op: FsOp, detail: Seq<char>) -> Seq<char> {
    match op {
        FsOp::ReadDir => "Failed to read directory: "@ + detail,
        FsOp::Metadata => "Failed to get metadata: "@ + detail,
        FsOp::ReadFile => "Failed to read file: "@ + detail,
        FsOp::HashFile => "Failed to hash file: "@ + detail,
        FsOp::Delete => "Failed to delete: "@ + detail,
    }
}

/// The server's answer when an operation fails.
pub fn fs_failure(op: FsOp, detail: &str) -> (m: ServerMessage)
    ensures
        m matches ServerMessage::FsError { message } && message@ == fs_failure_text(op, detail@),
{
    let head = match op {
        FsOp::ReadDir => "Failed to read directory: ",
        FsOp::Metadata => "Failed to get metadata: ",
        FsOp::ReadFile => "Failed to read file: ",
        FsOp::HashFile => "Failed to hash file: ",
        FsOp::Delete => "Failed to delete: ",
    };
    ServerMessage::FsError { message: concat2(head, detail) }
}

/// The server's answer to a message that is not a file-browser request.
pub fn unexpected_request_reply() -> (m: ServerMessage)
    ensures
        m matches ServerMessage::Error { message } && message@ == "Unexpected message type"@,
{
    ServerMessage::Error { message: "Unexpected message type".to_owned() }
}

/// The answer to a hash request for a file whose contents are `data`: the
/// lowercase hex BLAKE3 hash of those bytes.
pub fn file_hash_reply(data: &[u8]) -> (reply: ServerMessage)
    ensures
        reply matches ServerMessage::FsHashResponse { hash } && hash@ == blake3_hex_of(data@),
{
    ServerMessage::FsHashResponse { hash: blake3_hex(data) }
}

} // verus!
