//! Records of the shell-session debug log.
//!
//! Each function builds the record of one event: the session it belongs to
//! and the message text.  Writing a record, with its timestamp, is left to
//! the caller; `log_line` gives the exact line to write.
use vstd::prelude::*;
use crate::text::{dec, dec_signed, u64_to_string, i64_to_string, concat2, concat3, concat4, concat5};

verus! {

/// One debug-log record.
pub struct LogRecord {
    pub session_id: String,
    pub message: String,
}

/// The line written for a record: `[<timestamp>] [<session>] <message>` and
/// a line break.
pub fn log_line(timestamp: &str, session_id: &str, message: &str) -> (s: String)
    ensures
        s@ == "["@ + timestamp@ + "] ["@ + session_id@ + "] "@ + message@ + "\n"@,
{
    let a = concat5("[", timestamp, "] [", session_id, "] ");
    concat3(a.as_str(), message, "\n")
}

/// A record of `message` for session `session_id`.
pub fn log_debug(session_id: &str, message: &str) -> (r: LogRecord)
    ensures
        r.session_id@ == session_id@,
        r.message@ == message@,
{
    LogRecord { session_id: session_id.to_owned(), message: message.to_owned() }
}

/// The record of a PTY read event.
pub fn log_pty_read(session_id: &str, bytes_read: usize) -> (r: LogRecord)
    ensures
        r.session_id@ == session_id@,
        r.message@ == "PTY_READ: "@ + dec(bytes_read as nat) + " bytes from bash"@,
{
    let bytes_read_text = u64_to_string(bytes_read as u64);
    LogRecord { session_id: session_id.to_owned(), message: concat3("PTY_READ: ", bytes_read_text.as_str(), " bytes from bash") }
}

/// The record of a PTY end of file (bash exited).
pub fn log_pty_eof(session_id: &str) -> (r: LogRecord)
    ensures
        r.session_id@ == session_id@,
        r.message@ == "PTY_EOF: bash has exited"@,
{
    LogRecord { session_id: session_id.to_owned(), message: "PTY_EOF: bash has exited".to_owned() }
}

/// The record of a PTY read error.
pub fn log_pty_error(session_id: &str, error: &str) -> (r: LogRecord)
    ensures
        r.session_id@ == session_id@,
        r.message@ == "PTY_ERROR: "@ + error@,
{
    LogRecord { session_id: session_id.to_owned(), message: concat2("PTY_ERROR: ", error) }
}

/// The record of a message queued for sending.
pub fn log_msg_queued(session_id: &str, msg_type: &str, encoded_size: usize) -> (r: LogRecord)
    ensures
        r.session_id@ == session_id@,
        r.message@ == "MSG_QUEUED: type="@ + msg_type@ + ", encoded_size="@ + dec(encoded_size as nat) + " bytes"@,
{
    let encoded_size_text = u64_to_string(encoded_size as u64);
    LogRecord { session_id: session_id.to_owned(), message: concat5("MSG_QUEUED: type=", msg_type, ", encoded_size=", encoded_size_text.as_str(), " bytes") }
}

/// The record of a failure to queue a message.
pub fn log_queue_send_failed(session_id: &str, msg_type: &str) -> (r: LogRecord)
    ensures
        r.session_id@ == session_id@,
        r.message@ == "QUEUE_FAILED: type="@ + msg_type@ + ", channel closed"@,
{
    LogRecord { session_id: session_id.to_owned(), message: concat3("QUEUE_FAILED: type=", msg_type, ", channel closed") }
}

/// The record of a start of a QUIC write.
pub fn log_quic_write_start(session_id: &str, size: usize) -> (r: LogRecord)
    ensures
        r.session_id@ == session_id@,
        r.message@ == "QUIC_WRITE_START: "@ + dec(size as nat) + " bytes"@,
{
    let size_text = u64_to_string(size as u64);
    LogRecord { session_id: session_id.to_owned(), message: concat3("QUIC_WRITE_START: ", size_text.as_str(), " bytes") }
}

/// The record of a completed QUIC write.
pub fn log_quic_write_done(session_id: &str, size: usize) -> (r: LogRecord)
    ensures
        r.session_id@ == session_id@,
        r.message@ == "QUIC_WRITE_DONE: "@ + dec(size as nat) + " bytes sent"@,
{
    let size_text = u64_to_string(size as u64);
    LogRecord { session_id: session_id.to_owned(), message: concat3("QUIC_WRITE_DONE: ", size_text.as_str(), " bytes sent") }
}

/// The record of a failed QUIC write.
pub fn log_quic_write_failed(session_id: &str, size: usize, error: &str) -> (r: LogRecord)
    ensures
        r.session_id@ == session_id@,
        r.message@ == "QUIC_WRITE_FAILED: "@ + dec(size as nat) + " bytes, error="@ + error@,
{
    let size_text = u64_to_string(size as u64);
    LogRecord { session_id: session_id.to_owned(), message: concat4("QUIC_WRITE_FAILED: ", size_text.as_str(), " bytes, error=", error) }
}

/// The record of a start of the send task.
pub fn log_send_task_started(session_id: &str) -> (r: LogRecord)
    ensures
        r.session_id@ == session_id@,
        r.message@ == "SEND_TASK: started"@,
{
    LogRecord { session_id: session_id.to_owned(), message: "SEND_TASK: started".to_owned() }
}

/// The record of a end of the send task.
pub fn log_send_task_ended(session_id: &str, reason: &str) -> (r: LogRecord)
    ensures
        r.session_id@ == session_id@,
        r.message@ == "SEND_TASK: ended, reason="@ + reason@,
{
    LogRecord { session_id: session_id.to_owned(), message: concat2("SEND_TASK: ended, reason=", reason) }
}

/// The record of a start of the PTY task.
pub fn log_pty_task_started(session_id: &str) -> (r: LogRecord)
    ensures
        r.session_id@ == session_id@,
        r.message@ == "PTY_TASK: started"@,
{
    LogRecord { session_id: session_id.to_owned(), message: "PTY_TASK: started".to_owned() }
}

/// The record of a end of the PTY task.
pub fn log_pty_task_ended(session_id: &str, reason: &str) -> (r: LogRecord)
    ensures
        r.session_id@ == session_id@,
        r.message@ == "PTY_TASK: ended, reason="@ + reason@,
{
    LogRecord { session_id: session_id.to_owned(), message: concat2("PTY_TASK: ended, reason=", reason) }
}

/// The record of a start of a shell session.
pub fn log_session_start(session_id: &str) -> (r: LogRecord)
    ensures
        r.session_id@ == session_id@,
        r.message@ == "SESSION_START: shell session beginning"@,
{
    LogRecord { session_id: session_id.to_owned(), message: "SESSION_START: shell session beginning".to_owned() }
}

/// The record of a end of a shell session.
pub fn log_session_end(session_id: &str) -> (r: LogRecord)
    ensures
        r.session_id@ == session_id@,
        r.message@ == "SESSION_END: connection closed"@,
{
    LogRecord { session_id: session_id.to_owned(), message: "SESSION_END: connection closed".to_owned() }
}

/// The record of a input received from the client.
pub fn log_client_input(session_id: &str, input_type: &str, size: usize) -> (r: LogRecord)
    ensures
        r.session_id@ == session_id@,
        r.message@ == "CLIENT_INPUT: type="@ + input_type@ + ", size="@ + dec(size as nat) + " bytes"@,
{
    let size_text = u64_to_string(size as u64);
    LogRecord { session_id: session_id.to_owned(), message: concat5("CLIENT_INPUT: type=", input_type, ", size=", size_text.as_str(), " bytes") }
}

/// The record of a accepted connection.
pub fn log_connection_accepted(session_id: &str, remote_addr: &str) -> (r: LogRecord)
    ensures
        r.session_id@ == session_id@,
        r.message@ == "CONNECTION_ACCEPTED: remote_addr="@ + remote_addr@,
{
    LogRecord { session_id: session_id.to_owned(), message: concat2("CONNECTION_ACCEPTED: remote_addr=", remote_addr) }
}

/// The record of a accepted bidirectional stream.
pub fn log_bi_stream_accepted(session_id: &str) -> (r: LogRecord)
    ensures
        r.session_id@ == session_id@,
        r.message@ == "BI_STREAM_ACCEPTED: bidirectional stream ready"@,
{
    LogRecord { session_id: session_id.to_owned(), message: "BI_STREAM_ACCEPTED: bidirectional stream ready".to_owned() }
}

/// The record of a Hello message received.
pub fn log_hello_received(session_id: &str, session_type: &str) -> (r: LogRecord)
    ensures
        r.session_id@ == session_id@,
        r.message@ == "HELLO_RECEIVED: session_type="@ + session_type@,
{
    LogRecord { session_id: session_id.to_owned(), message: concat2("HELLO_RECEIVED: session_type=", session_type) }
}

/// The record of a start of PTY creation.
pub fn log_pty_creation_start(session_id: &str, cols: u16, rows: u16) -> (r: LogRecord)
    ensures
        r.session_id@ == session_id@,
        r.message@ == "PTY_CREATE_START: cols="@ + dec(cols as nat) + ", rows="@ + dec(rows as nat),
{
    let cols_text = u64_to_string(cols as u64);
    let rows_text = u64_to_string(rows as u64);
    LogRecord { session_id: session_id.to_owned(), message: concat4("PTY_CREATE_START: cols=", cols_text.as_str(), ", rows=", rows_text.as_str()) }
}

/// The record of a successful PTY creation.
pub fn log_pty_created(session_id: &str, pty_fd: i32) -> (r: LogRecord)
    ensures
        r.session_id@ == session_id@,
        r.message@ == "PTY_CREATED: success, fd="@ + dec_signed(pty_fd as int),
{
    let pty_fd_text = i64_to_string(pty_fd as i64);
    LogRecord { session_id: session_id.to_owned(), message: concat2("PTY_CREATED: success, fd=", pty_fd_text.as_str()) }
}

/// The record of a failed PTY creation.
pub fn log_pty_creation_failed(session_id: &str, error: &str) -> (r: LogRecord)
    ensures
        r.session_id@ == session_id@,
        r.message@ == "PTY_CREATE_FAILED: "@ + error@,
{
    LogRecord { session_id: session_id.to_owned(), message: concat2("PTY_CREATE_FAILED: ", error) }
}

/// The record of a start of the bash spawn.
pub fn log_bash_spawn_start(session_id: &str) -> (r: LogRecord)
    ensures
        r.session_id@ == session_id@,
        r.message@ == "BASH_SPAWN_START: spawning bash process"@,
{
    LogRecord { session_id: session_id.to_owned(), message: "BASH_SPAWN_START: spawning bash process".to_owned() }
}

/// The record of a successful bash spawn.
pub fn log_bash_spawned(session_id: &str, pid: u32) -> (r: LogRecord)
    ensures
        r.session_id@ == session_id@,
        r.message@ == "BASH_SPAWNED: success, pid="@ + dec(pid as nat),
{
    let pid_text = u64_to_string(pid as u64);
    LogRecord { session_id: session_id.to_owned(), message: concat2("BASH_SPAWNED: success, pid=", pid_text.as_str()) }
}

/// The record of a failed bash spawn.
pub fn log_bash_spawn_failed(session_id: &str, error: &str) -> (r: LogRecord)
    ensures
        r.session_id@ == session_id@,
        r.message@ == "BASH_SPAWN_FAILED: "@ + error@,
{
    LogRecord { session_id: session_id.to_owned(), message: concat2("BASH_SPAWN_FAILED: ", error) }
}

/// The record of a start of a QUIC read.
pub fn log_quic_read_start(session_id: &str) -> (r: LogRecord)
    ensures
        r.session_id@ == session_id@,
        r.message@ == "QUIC_READ_START: waiting for data from client"@,
{
    LogRecord { session_id: session_id.to_owned(), message: "QUIC_READ_START: waiting for data from client".to_owned() }
}

/// The record of a completed QUIC read.
pub fn log_quic_read_done(session_id: &str, bytes_read: usize) -> (r: LogRecord)
    ensures
        r.session_id@ == session_id@,
        r.message@ == "QUIC_READ_DONE: "@ + dec(bytes_read as nat) + " bytes received"@,
{
    let bytes_read_text = u64_to_string(bytes_read as u64);
    LogRecord { session_id: session_id.to_owned(), message: concat3("QUIC_READ_DONE: ", bytes_read_text.as_str(), " bytes received") }
}

/// The record of a failed QUIC read.
pub fn log_quic_read_failed(session_id: &str, error: &str) -> (r: LogRecord)
    ensures
        r.session_id@ == session_id@,
        r.message@ == "QUIC_READ_FAILED: "@ + error@,
{
    LogRecord { session_id: session_id.to_owned(), message: concat2("QUIC_READ_FAILED: ", error) }
}

/// The record of a start of message decoding.
pub fn log_decode_start(session_id: &str, buffer_size: usize) -> (r: LogRecord)
    ensures
        r.session_id@ == session_id@,
        r.message@ == "DECODE_START: buffer_size="@ + dec(buffer_size as nat) + " bytes"@,
{
    let buffer_size_text = u64_to_string(buffer_size as u64);
    LogRecord { session_id: session_id.to_owned(), message: concat3("DECODE_START: buffer_size=", buffer_size_text.as_str(), " bytes") }
}

/// The record of a decoded message.
pub fn log_decode_done(session_id: &str, msg_type: &str) -> (r: LogRecord)
    ensures
        r.session_id@ == session_id@,
        r.message@ == "DECODE_DONE: msg_type="@ + msg_type@,
{
    LogRecord { session_id: session_id.to_owned(), message: concat2("DECODE_DONE: msg_type=", msg_type) }
}

/// The record of a failed decoding.
pub fn log_decode_failed(session_id: &str, error: &str) -> (r: LogRecord)
    ensures
        r.session_id@ == session_id@,
        r.message@ == "DECODE_FAILED: "@ + error@,
{
    LogRecord { session_id: session_id.to_owned(), message: concat2("DECODE_FAILED: ", error) }
}

/// The record of a start of a WebSocket shell connection.
pub fn log_ws_connection_start(session_id: &str) -> (r: LogRecord)
    ensures
        r.session_id@ == session_id@,
        r.message@ == "WS_CONNECTION_START: WebSocket shell connection initiated"@,
{
    LogRecord { session_id: session_id.to_owned(), message: "WS_CONNECTION_START: WebSocket shell connection initiated".to_owned() }
}

/// The record of a start of the WebSocket-to-QUIC task.
pub fn log_ws_to_quic_task_started(session_id: &str) -> (r: LogRecord)
    ensures
        r.session_id@ == session_id@,
        r.message@ == "WS_TO_QUIC_TASK: started"@,
{
    LogRecord { session_id: session_id.to_owned(), message: "WS_TO_QUIC_TASK: started".to_owned() }
}

/// The record of a end of the WebSocket-to-QUIC task.
pub fn log_ws_to_quic_task_ended(session_id: &str, reason: &str) -> (r: LogRecord)
    ensures
        r.session_id@ == session_id@,
        r.message@ == "WS_TO_QUIC_TASK: ended, reason="@ + reason@,
{
    LogRecord { session_id: session_id.to_owned(), message: concat2("WS_TO_QUIC_TASK: ended, reason=", reason) }
}

/// The record of a start of the QUIC-to-WebSocket task.
pub fn log_quic_to_ws_task_started(session_id: &str) -> (r: LogRecord)
    ensures
        r.session_id@ == session_id@,
        r.message@ == "QUIC_TO_WS_TASK: started"@,
{
    LogRecord { session_id: session_id.to_owned(), message: "QUIC_TO_WS_TASK: started".to_owned() }
}

/// The record of a end of the QUIC-to-WebSocket task.
pub fn log_quic_to_ws_task_ended(session_id: &str, reason: &str) -> (r: LogRecord)
    ensures
        r.session_id@ == session_id@,
        r.message@ == "QUIC_TO_WS_TASK: ended, reason="@ + reason@,
{
    LogRecord { session_id: session_id.to_owned(), message: concat2("QUIC_TO_WS_TASK: ended, reason=", reason) }
}

/// The record of a WebSocket message received.
pub fn log_ws_msg_received(session_id: &str, size: usize) -> (r: LogRecord)
    ensures
        r.session_id@ == session_id@,
        r.message@ == "WS_MSG_RECEIVED: "@ + dec(size as nat) + " bytes from browser"@,
{
    let size_text = u64_to_string(size as u64);
    LogRecord { session_id: session_id.to_owned(), message: concat3("WS_MSG_RECEIVED: ", size_text.as_str(), " bytes from browser") }
}

/// The record of a WebSocket message sent.
pub fn log_ws_msg_sent(session_id: &str, size: usize) -> (r: LogRecord)
    ensures
        r.session_id@ == session_id@,
        r.message@ == "WS_MSG_SENT: "@ + dec(size as nat) + " bytes to browser"@,
{
    let size_text = u64_to_string(size as u64);
    LogRecord { session_id: session_id.to_owned(), message: concat3("WS_MSG_SENT: ", size_text.as_str(), " bytes to browser") }
}

} // verus!
