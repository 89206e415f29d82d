//! File transfers: where an upload lands, how a pull resumes, and the
//! server's side of a file-transfer session.
//!
//! The server keeps at most one open upload.  Each message from the client
//! is answered by a `TransferAction` that the caller carries out (sending a
//! reply, creating the target file, writing a chunk, streaming a download);
//! the outcome of the file-system work comes back through `on_prepared` and
//! `on_write_failed`.
use vstd::prelude::*;
use crate::protocol::{ClientMessage, ServerMessage};
use crate::paths::{file_name_of, parent_of, join_of, file_name, parent, join};
use crate::text::{has_suffix, chars_of, ends_with_chars, concat2, concat3, trimmed, trim_chars, string_of};

verus! {

/// Size of the chunks in which file data is sent (64 KiB).
pub const CHUNK_SIZE: usize = 65536;

/// A pull saves its resume point after every this many chunks.
pub const CHECKPOINT_INTERVAL: u64 = 10;

// ---------------------------------------------------------------------------
// Client side: where an upload goes
// ---------------------------------------------------------------------------

/// Where a sent file lands on the server: a directory is sent to
/// `remote` itself; a single file is sent into `remote` when `remote` ends
/// with `/`, and to `remote` as its exact name otherwise.
pub open spec fn upload_destination_of(remote: Seq<char>, local: Seq<char>, is_dir: bool) -> Seq<char> {
    if is_dir {
        remote
    } else if has_suffix(remote, seq!['/']) {
        remote + file_name_of(local)->0
    } else {
        remote
    }
}

/// The remote path of an upload of `local_path` to `remote_path`.  A single
/// file must have a file name.
pub fn upload_destination(remote_path: &str, local_path: &str, is_dir: bool) -> (r: String)
    requires
        is_dir || file_name_of(local_path@) is Some,
    ensures
        r@ == upload_destination_of(remote_path@, local_path@, is_dir),
{
    if is_dir {
        return remote_path.to_owned();
    }
    let name = match file_name(local_path) {
        Some(n) => n,
        None => { return remote_path.to_owned(); },
    };
    let r = chars_of(remote_path);
    let slash = vec!['/'];
    assert(slash@ =~= seq!['/']);
    if ends_with_chars(r.as_slice(), slash.as_slice()) {
        concat2(remote_path, name.as_str())
    } else {
        remote_path.to_owned()
    }
}

/// Where a pulled file lands locally: inside `local`, under the remote
/// path's file name, when `local` is an existing directory or ends with
/// `/` (and the remote path has a file name); at `local` itself otherwise.
pub open spec fn pull_destination_of(remote: Seq<char>, local: Seq<char>, local_is_dir: bool) -> Seq<char> {
    if (local_is_dir || has_suffix(local, seq!['/'])) && file_name_of(remote) is Some {
        join_of(local, file_name_of(remote)->0)
    } else {
        local
    }
}

/// The local path of a pull of `remote_path` to `local_path`
/// (`local_is_dir`: whether `local_path` is an existing directory).
pub fn pull_destination(remote_path: &str, local_path: &str, local_is_dir: bool) -> (r: String)
    ensures
        r@ == pull_destination_of(remote_path@, local_path@, local_is_dir),
{
    let l = chars_of(local_path);
    let slash = vec!['/'];
    assert(slash@ =~= seq!['/']);
    let into_dir = local_is_dir || ends_with_chars(l.as_slice(), slash.as_slice());
    if into_dir {
        match file_name(remote_path) {
            Some(name) => join(local_path, name.as_str()),
            None => local_path.to_owned(),
        }
    } else {
        local_path.to_owned()
    }
}

/// Whether an answer to an overwrite prompt accepts it: `y` or `Y`, with
/// surrounding whitespace ignored.
pub open spec fn accepts_overwrite(answer: Seq<char>) -> bool {
    trimmed(answer) == seq!['y'] || trimmed(answer) == seq!['Y']
}

/// Reads the user's answer to an overwrite prompt.
pub fn is_confirmation(answer: &str) -> (yes: bool)
    ensures
        yes == accepts_overwrite(answer@),
{
    let v = chars_of(answer);
    let t = trim_chars(v.as_slice());
    if t.len() == 1 {
        assert(t@ == seq!['y'] <==> t@[0] == 'y') by {
            if t@[0] == 'y' {
                assert(t@ =~= seq!['y']);
            }
        }
        assert(t@ == seq!['Y'] <==> t@[0] == 'Y') by {
            if t@[0] == 'Y' {
                assert(t@ =~= seq!['Y']);
            }
        }
        t[0] == 'y' || t[0] == 'Y'
    } else {
        false
    }
}

/// What the client does with the server's first answer to an upload.
#[derive(Debug)]
pub enum UploadReply {
    /// The server accepted the upload: send the data.
    Proceed,
    /// The server asks whether to overwrite, with this question.
    Confirm { message: String },
    /// The server refused, with this message.
    Refused { message: String },
    /// Any other answer ends the upload.
    Unexpected,
}

/// Reads the server's answer to `StartUpload` (or to a confirmation).
pub fn upload_reply(msg: ServerMessage) -> (r: UploadReply)
    ensures
        match msg {
            ServerMessage::UploadAck => r is Proceed,
            ServerMessage::ConfirmPrompt { message } => r matches UploadReply::Confirm { message: m } && m@ == message@,
            ServerMessage::Error { message } => r matches UploadReply::Refused { message: m } && m@ == message@,
            _ => r is Unexpected,
        },
{
    match msg {
        ServerMessage::UploadAck => UploadReply::Proceed,
        ServerMessage::ConfirmPrompt { message } => UploadReply::Confirm { message },
        ServerMessage::Error { message } => UploadReply::Refused { message },
        _ => UploadReply::Unexpected,
    }
}

// ---------------------------------------------------------------------------
// Client side: resuming a pull
// ---------------------------------------------------------------------------

/// What a partial download records so that it can be resumed.
#[derive(Clone, Debug)]
pub struct ResumeMetadata {
    /// Number of bytes successfully received
    pub bytes_received: u64,
    /// Total file size expected
    pub total_size: u64,
    /// Remote path being downloaded
    pub remote_path: String,
}

/// The name of the resume file of a file named `name`: `.{name}.resume_json`.
pub open spec fn resume_file_name(name: Seq<char>) -> Seq<char> {
    seq!['.'] + name + ".resume_json"@
}

/// Where the resume metadata of `local` is kept: beside it (in `.` when it
/// has no parent), under `resume_file_name` of its file name.
pub open spec fn resume_metadata_path_of(local: Seq<char>) -> Seq<char> {
    let dir = match parent_of(local) {
        Some(p) => p,
        None => seq!['.'],
    };
    join_of(dir, resume_file_name(file_name_of(local)->0))
}

/// The path of the resume metadata of a local file, which must have a file
/// name.
pub fn get_resume_metadata_path(local_path: &str) -> (r: String)
    requires
        file_name_of(local_path@) is Some,
    ensures
        r@ == resume_metadata_path_of(local_path@),
{
    let dir = match parent(local_path) {
        Some(p) => p,
        None => ".".to_owned(),
    };
    proof {
        reveal_strlit(".");
    }
    let name = match file_name(local_path) {
        Some(n) => n,
        None => String::new(),
    };
    let fname = concat3(".", name.as_str(), ".resume_json");
    proof {
        assert(seq!['.'] =~= "."@);
    }
    join(dir.as_str(), fname.as_str())
}

/// Whether resume metadata belongs to a pull of `remote_path`.
pub fn resume_matches(meta: &ResumeMetadata, remote_path: &str) -> (r: bool)
    ensures
        r == (meta.remote_path@ == remote_path@),
{
    let a = chars_of(meta.remote_path.as_str());
    let b = chars_of(remote_path);
    crate::text::chars_eq(a.as_slice(), b.as_slice())
}

/// The offset from which a pull of `remote_path` asks the server to send:
/// what the resume metadata says was received, when that metadata belongs
/// to this remote path and the partial local file (`existing_len` bytes, or
/// `None` where there is none) is exactly that long; otherwise 0, a fresh
/// download.
pub open spec fn pull_offset_of(meta: Option<ResumeMetadata>, remote_path: Seq<char>, existing_len: Option<u64>) -> u64 {
    match meta {
        Some(m) => if m.remote_path@ == remote_path && existing_len == Some(m.bytes_received) {
            m.bytes_received
        } else {
            0
        },
        None => 0,
    }
}

/// The offset from which a pull of `remote_path` asks the server to send.
pub fn pull_offset(meta: &Option<ResumeMetadata>, remote_path: &str, existing_len: Option<u64>) -> (r: u64)
    ensures
        r == pull_offset_of(*meta, remote_path@, existing_len),
{
    match meta {
        Some(m) => {
            let same_len = match existing_len {
                Some(n) => n == m.bytes_received,
                None => false,
            };
            if same_len && resume_matches(m, remote_path) {
                m.bytes_received
            } else {
                0
            }
        },
        None => 0,
    }
}

/// How the local file of a pull is opened.
#[derive(Clone, Copy, Debug, PartialEq, Eq, Structural)]
pub enum OutputPlan {
    /// Nothing to resume: create (or truncate) the file.
    Create,
    /// Append to the partial file.
    Append,
    /// The partial file does not match the resume point: drop the resume
    /// metadata and create the file afresh.
    Restart,
}

/// How to open the local file of a pull resuming at `offset`, given the
/// length of the partial file.
pub fn output_plan(offset: u64, existing_len: u64) -> (p: OutputPlan)
    ensures
        p == (if offset == 0 {
            OutputPlan::Create
        } else if existing_len == offset {
            OutputPlan::Append
        } else {
            OutputPlan::Restart
        }),
{
    if offset == 0 {
        OutputPlan::Create
    } else if existing_len == offset {
        OutputPlan::Append
    } else {
        OutputPlan::Restart
    }
}

/// The progress of a pull.
#[derive(Debug)]
pub struct PullProgress {
    /// Bytes received so far, counting from the resume offset
    pub bytes_received: u64,
    /// Chunks received in this session
    pub chunk_count: u64,
    /// Total size announced by the server
    pub total_size: u64,
    /// Remote path being downloaded
    pub remote_path: String,
}

/// What the client does with a message received during a pull.
#[derive(Debug)]
pub enum PullStep {
    /// Write the chunk's data; save `checkpoint` when there is one.
    Write { checkpoint: Option<ResumeMetadata> },
    /// The download is complete: remove the resume metadata.
    Complete,
    /// The server reported an error: save `checkpoint` and stop.
    Failed { message: String, checkpoint: ResumeMetadata },
    /// An unexpected message: save `checkpoint` and stop.
    Interrupted { checkpoint: ResumeMetadata },
}

/// Whether `m` records the progress `p`.
pub open spec fn records(m: ResumeMetadata, p: PullProgress) -> bool {
    m.bytes_received == p.bytes_received && m.total_size == p.total_size && m.remote_path@ == p.remote_path@
}

impl PullProgress {
    /// A pull of `remote_path` of `total_size` bytes, starting at `offset`.
    pub fn new(offset: u64, total_size: u64, remote_path: String) -> (p: Self)
        ensures
            p.bytes_received == offset,
            p.chunk_count == 0,
            p.total_size == total_size,
            p.remote_path@ == remote_path@,
    {
        PullProgress { bytes_received: offset, chunk_count: 0, total_size, remote_path }
    }

    /// The resume metadata of the current progress.
    pub fn checkpoint(&self) -> (m: ResumeMetadata)
        ensures
            records(m, *self),
    {
        ResumeMetadata {
            bytes_received: self.bytes_received,
            total_size: self.total_size,
            remote_path: self.remote_path.clone(),
        }
    }

    /// Takes the next message of the download.  A chunk adds its length to
    /// the bytes received; every tenth chunk yields a checkpoint.
    pub fn on_message(&mut self, msg: &ServerMessage) -> (step: PullStep)
        requires
            msg matches ServerMessage::FileChunk { data } ==> old(self).bytes_received + data.len() <= u64::MAX
                && old(self).chunk_count < u64::MAX,
        ensures
            final(self).total_size == old(self).total_size,
            final(self).remote_path@ == old(self).remote_path@,
            match *msg {
                ServerMessage::FileChunk { data } => {
                    &&& final(self).bytes_received == old(self).bytes_received + data.len()
                    &&& final(self).chunk_count == old(self).chunk_count + 1
                    &&& step matches PullStep::Write { checkpoint }
                    &&& (final(self).chunk_count % CHECKPOINT_INTERVAL == 0 <==> checkpoint is Some)
                    &&& (checkpoint matches Some(c) ==> records(c, *final(self)))
                },
                ServerMessage::EndDownload => {
                    &&& step is Complete
                    &&& final(self).bytes_received == old(self).bytes_received
                    &&& final(self).chunk_count == old(self).chunk_count
                },
                ServerMessage::Error { message } => {
                    &&& step matches PullStep::Failed { message: m, checkpoint }
                    &&& m@ == message@
                    &&& records(checkpoint, *old(self))
                    &&& final(self).bytes_received == old(self).bytes_received
                    &&& final(self).chunk_count == old(self).chunk_count
                },
                _ => {
                    &&& step matches PullStep::Interrupted { checkpoint }
                    &&& records(checkpoint, *old(self))
                    &&& final(self).bytes_received == old(self).bytes_received
                    &&& final(self).chunk_count == old(self).chunk_count
                },
            },
    {
        match msg {
            ServerMessage::FileChunk { data } => {
                let n = data.len() as u64;
                self.bytes_received = self.bytes_received + n;
                self.chunk_count = self.chunk_count + 1;
                if self.chunk_count % CHECKPOINT_INTERVAL == 0 {
                    PullStep::Write { checkpoint: Some(self.checkpoint()) }
                } else {
                    PullStep::Write { checkpoint: None }
                }
            },
            ServerMessage::EndDownload => PullStep::Complete,
            ServerMessage::Error { message } => {
                PullStep::Failed { message: message.clone(), checkpoint: self.checkpoint() }
            },
            _ => PullStep::Interrupted { checkpoint: self.checkpoint() },
        }
    }
}

// ---------------------------------------------------------------------------
// Server side: a file-transfer session
// ---------------------------------------------------------------------------

/// What the file system says of a path when a message about it arrives.
#[derive(Clone, Copy, Debug, PartialEq, Eq, Structural)]
pub struct PathFacts {
    pub exists: bool,
    pub is_dir: bool,
}

/// The question asked before an existing file is overwritten.
pub open spec fn overwrite_prompt_text(path: Seq<char>) -> Seq<char> {
    "File '"@ + path + "' already exists. Overwrite?"@
}

/// The refusal of an upload whose target is an existing directory.
pub open spec fn directory_target_text(path: Seq<char>) -> Seq<char> {
    "Target path is an existing directory: "@ + path
        + ". Please specify a filename or use a path with trailing /"@
}

/// The refusal of a download of a path that does not exist.
pub open spec fn missing_path_text(path: Seq<char>) -> Seq<char> {
    "Path does not exist: "@ + path
}

/// The error sent when the directories of an upload cannot be created.
pub open spec fn dirs_failed_text(e: Seq<char>) -> Seq<char> {
    "Failed to create directories: "@ + e
}

/// The error sent when the target file of an upload cannot be created.
pub open spec fn create_failed_text(e: Seq<char>) -> Seq<char> {
    "Failed to create file: "@ + e
}

/// The error sent when a chunk cannot be written.
pub open spec fn write_failed_text(e: Seq<char>) -> Seq<char> {
    "Failed to write to file: "@ + e
}

/// The error sent when the size of a download cannot be computed.
pub open spec fn size_failed_text(e: Seq<char>) -> Seq<char> {
    "Failed to calculate size: "@ + e
}

/// The error sent when the files of a download cannot be listed.
pub open spec fn files_failed_text(e: Seq<char>) -> Seq<char> {
    "Failed to read files: "@ + e
}

/// What the server does for one message of a file-transfer session.
#[derive(Debug)]
pub enum TransferAction {
    /// Send this message to the client.
    Reply(ServerMessage),
    /// Create the directories of `parent` (when there is one), then create
    /// the file `path`, and report the outcome to `on_prepared`.
    Prepare { path: String, parent: Option<String> },
    /// Write the chunk's data to the open upload; report a failure to
    /// `on_write_failed`.
    WriteChunk,
    /// Close the open upload, if any (`path` names it).
    FinishUpload { path: Option<String> },
    /// Send the file or directory `path` to the client: its size, then
    /// its bytes from position `offset` on (see `resume_part`).
    Download { path: String, is_dir: bool, offset: u64 },
    /// The client disconnects: end the session.
    Close,
    /// Nothing to do.
    Ignore,
}

/// How preparing an upload's target went.
#[derive(Debug)]
pub enum PrepareOutcome {
    /// The file was created and is open for writing.
    Ready,
    /// Its directories could not be created; the error's message.
    DirsFailed(String),
    /// The file could not be created; the error's message.
    CreateFailed(String),
}

/// The server's state in a file-transfer session: the path of the open
/// upload, and the path whose overwrite awaits the client's confirmation.
#[derive(Debug)]
pub struct TransferSession {
    upload: Option<String>,
    confirming: Option<String>,
}

/// The abstract state of a file-transfer session.
pub struct TransferSessionView {
    pub upload: Option<Seq<char>>,
    pub confirming: Option<Seq<char>>,
}

/// The view of an optional string.
pub open spec fn opt_view(o: Option<String>) -> Option<Seq<char>> {
    match o {
        Some(s) => Some(s@),
        None => None,
    }
}

impl View for TransferSession {
    type V = TransferSessionView;

    closed spec fn view(&self) -> TransferSessionView {
        TransferSessionView { upload: opt_view(self.upload), confirming: opt_view(self.confirming) }
    }
}

/// The action taken for the target `path` of an upload once overwriting
/// is settled: a directory is refused, anything else is prepared.
pub open spec fn target_action(path: Seq<char>, is_dir: bool, action: TransferAction) -> bool {
    if is_dir {
        action matches TransferAction::Reply(ServerMessage::Error { message })
            && message@ == directory_target_text(path)
    } else {
        action matches TransferAction::Prepare { path: p, parent: q }
            && p@ == path && opt_view(q) == parent_of(path)
    }
}

/// What one message does to a file-transfer session, given the facts about
/// the path it concerns.  While an overwrite awaits confirmation, the next
/// message is taken as the answer: only `ConfirmResponse { confirmed: true }`
/// goes on with the upload.
pub open spec fn transfer_outcome(
    before: TransferSessionView,
    msg: ClientMessage,
    facts: PathFacts,
    after: TransferSessionView,
    action: TransferAction,
) -> bool {
    match before.confirming {
        Some(path) => {
            &&& after.upload == before.upload
            &&& after.confirming is None
            &&& if msg matches ClientMessage::ConfirmResponse { confirmed } && confirmed {
                target_action(path, facts.is_dir, action)
            } else {
                action is Ignore
            }
        },
        None => match msg {
            ClientMessage::StartUpload { path, size, is_dir, force } => {
                &&& after.upload == before.upload
                &&& if !force && facts.exists && !facts.is_dir {
                    &&& after.confirming == Some(path@)
                    &&& action matches TransferAction::Reply(ServerMessage::ConfirmPrompt { message })
                    &&& message@ == overwrite_prompt_text(path@)
                } else {
                    &&& after.confirming is None
                    &&& target_action(path@, facts.is_dir, action)
                }
            },
            ClientMessage::FileChunk { data } => {
                &&& after == before
                &&& if before.upload is Some { action is WriteChunk } else { action is Ignore }
            },
            ClientMessage::EndUpload => {
                &&& after.upload is None
                &&& after.confirming is None
                &&& action matches TransferAction::FinishUpload { path } && opt_view(path) == before.upload
            },
            ClientMessage::RequestDownload { path, offset } => {
                &&& after == before
                &&& if facts.exists {
                    action matches TransferAction::Download { path: p, is_dir, offset: o }
                        && p@ == path@ && is_dir == facts.is_dir && o == offset
                } else {
                    action matches TransferAction::Reply(ServerMessage::Error { message })
                        && message@ == missing_path_text(path@)
                }
            },
            ClientMessage::Disconnect => after == before && action is Close,
            _ => after == before && action is Ignore,
        },
    }
}

/// A copy of an optional string.
fn copy_opt(o: &Option<String>) -> (r: Option<String>)
    ensures
        opt_view(r) == opt_view(*o),
{
    match o {
        Some(s) => Some(s.clone()),
        None => None,
    }
}

/// The action for the target of an upload once overwriting is settled.
fn prepare_target(path: &String, is_dir: bool) -> (action: TransferAction)
    ensures
        target_action(path@, is_dir, action),
{
    if is_dir {
        let message = concat3("Target path is an existing directory: ", path.as_str(),
            ". Please specify a filename or use a path with trailing /");
        TransferAction::Reply(ServerMessage::Error { message })
    } else {
        TransferAction::Prepare { path: path.clone(), parent: parent(path.as_str()) }
    }
}

impl TransferSession {
    /// A session with no upload open.
    pub fn new() -> (s: Self)
        ensures
            s@.upload is None,
            s@.confirming is None,
    {
        TransferSession { upload: None, confirming: None }
    }

    /// The path of the open upload.
    pub fn upload_path(&self) -> (r: Option<&String>)
        ensures
            match r {
                Some(p) => self@.upload == Some(p@),
                None => self@.upload is None,
            },
    {
        self.upload.as_ref()
    }

    /// The path that the file system must be asked about before `msg` is
    /// handled: the path awaiting confirmation, else the path of an upload
    /// or download request.
    pub fn subject_path(&self, msg: &ClientMessage) -> (r: Option<String>)
        ensures
            opt_view(r) == match self@.confirming {
                Some(p) => Some(p),
                None => match *msg {
                    ClientMessage::StartUpload { path, .. } => Some(path@),
                    ClientMessage::RequestDownload { path, .. } => Some(path@),
                    _ => None,
                },
            },
    {
        match &self.confirming {
            Some(p) => Some(p.clone()),
            None => match msg {
                ClientMessage::StartUpload { path, .. } => Some(path.clone()),
                ClientMessage::RequestDownload { path, .. } => Some(path.clone()),
                _ => None,
            },
        }
    }

    /// Handles one message; `facts` describe `subject_path(msg)`.
    pub fn on_message(&mut self, msg: &ClientMessage, facts: PathFacts) -> (action: TransferAction)
        ensures
            transfer_outcome(old(self)@, *msg, facts, final(self)@, action),
    {
        if self.confirming.is_some() {
            let pending = self.confirming.take();
            let path = match pending {
                Some(p) => p,
                None => { return TransferAction::Ignore; },
            };
            return match msg {
                ClientMessage::ConfirmResponse { confirmed } => {
                    if *confirmed {
                        prepare_target(&path, facts.is_dir)
                    } else {
                        TransferAction::Ignore
                    }
                },
                _ => TransferAction::Ignore,
            };
        }
        match msg {
            ClientMessage::StartUpload { path, size, is_dir, force } => {
                if !*force && facts.exists && !facts.is_dir {
                    let message = concat3("File '", path.as_str(), "' already exists. Overwrite?");
                    self.confirming = Some(path.clone());
                    TransferAction::Reply(ServerMessage::ConfirmPrompt { message })
                } else {
                    prepare_target(path, facts.is_dir)
                }
            },
            ClientMessage::FileChunk { data } => {
                if self.upload.is_some() {
                    TransferAction::WriteChunk
                } else {
                    TransferAction::Ignore
                }
            },
            ClientMessage::EndUpload => {
                let path = self.upload.take();
                TransferAction::FinishUpload { path }
            },
            ClientMessage::RequestDownload { path, offset } => {
                if facts.exists {
                    TransferAction::Download { path: path.clone(), is_dir: facts.is_dir, offset: *offset }
                } else {
                    let message = concat2("Path does not exist: ", path.as_str());
                    TransferAction::Reply(ServerMessage::Error { message })
                }
            },
            ClientMessage::Disconnect => TransferAction::Close,
            _ => TransferAction::Ignore,
        }
    }

    /// A message that could not be decoded: an awaited confirmation is
    /// given up, nothing else changes.
    pub fn on_undecodable(&mut self)
        ensures
            final(self)@.upload == old(self)@.upload,
            final(self)@.confirming is None,
    {
        self.confirming = None;
    }

    /// The outcome of a `Prepare` action for `path`: on success the upload
    /// of `path` is open and acknowledged; otherwise the error is reported
    /// and the session is unchanged.
    pub fn on_prepared(&mut self, path: String, outcome: PrepareOutcome) -> (reply: ServerMessage)
        ensures
            match outcome {
                PrepareOutcome::Ready => final(self)@.upload == Some(path@) && reply is UploadAck,
                PrepareOutcome::DirsFailed(e) => {
                    &&& final(self)@.upload == old(self)@.upload
                    &&& reply matches ServerMessage::Error { message } && message@ == dirs_failed_text(e@)
                },
                PrepareOutcome::CreateFailed(e) => {
                    &&& final(self)@.upload == old(self)@.upload
                    &&& reply matches ServerMessage::Error { message } && message@ == create_failed_text(e@)
                },
            },
            final(self)@.confirming == old(self)@.confirming,
    {
        match outcome {
            PrepareOutcome::Ready => {
                self.upload = Some(path);
                ServerMessage::UploadAck
            },
            PrepareOutcome::DirsFailed(e) => {
                ServerMessage::Error { message: concat2("Failed to create directories: ", e.as_str()) }
            },
            PrepareOutcome::CreateFailed(e) => {
                ServerMessage::Error { message: concat2("Failed to create file: ", e.as_str()) }
            },
        }
    }

    /// A chunk could not be written: the upload is closed and the error
    /// reported.
    pub fn on_write_failed(&mut self, error: &str) -> (reply: ServerMessage)
        ensures
            final(self)@.upload is None,
            final(self)@.confirming == old(self)@.confirming,
            reply matches ServerMessage::Error { message } && message@ == write_failed_text(error@),
    {
        self.upload = None;
        ServerMessage::Error { message: concat2("Failed to write to file: ", error) }
    }
}

/// The first answer to a download: its size, or why it could not be
/// computed.
pub fn download_start_reply(is_dir: bool, size: Result<u64, String>) -> (reply: ServerMessage)
    ensures
        match size {
            Ok(n) => reply matches ServerMessage::StartDownload { size: m, is_dir: d } && m == n && d == is_dir,
            Err(e) => reply matches ServerMessage::Error { message } && message@ == size_failed_text(e@),
        },
{
    match size {
        Ok(n) => ServerMessage::StartDownload { size: n, is_dir },
        Err(e) => ServerMessage::Error { message: concat2("Failed to calculate size: ", e.as_str()) },
    }
}

/// The error sent when the files of a download cannot be listed.
pub fn files_error_reply(error: &str) -> (reply: ServerMessage)
    ensures
        reply matches ServerMessage::Error { message } && message@ == files_failed_text(error@),
{
    ServerMessage::Error { message: concat2("Failed to read files: ", error) }
}

/// What is left of the byte stream `s` from position `offset` on.
pub open spec fn rest_from(s: Seq<u8>, offset: int) -> Seq<u8> {
    if offset <= 0 {
        s
    } else if offset >= s.len() {
        Seq::<u8>::empty()
    } else {
        s.subrange(offset, s.len() as int)
    }
}

/// The part of a chunk that lies at stream position `pos` which a download
/// resuming at `offset` sends: the bytes at positions `offset` and beyond.
pub open spec fn resume_part_of(pos: int, chunk: Seq<u8>, offset: int) -> Seq<u8> {
    rest_from(chunk, offset - pos)
}

/// The part of `chunk`, read at stream position `pos`, that a download
/// resuming at `offset` sends.
pub fn resume_part(pos: u64, chunk: &[u8], offset: u64) -> (r: Vec<u8>)
    ensures
        r@ == resume_part_of(pos as int, chunk@, offset as int),
{
    let start: usize = if offset <= pos {
        0
    } else if offset - pos >= chunk.len() as u64 {
        chunk.len()
    } else {
        (offset - pos) as usize
    };
    let mut out: Vec<u8> = Vec::new();
    let mut i: usize = start;
    while i < chunk.len()
        invariant
            start <= i <= chunk@.len(),
            out@ == chunk@.subrange(start as int, i as int),
        decreases chunk.len() - i,
    {
        out.push(chunk[i]);
        i = i + 1;
        assert(out@ =~= chunk@.subrange(start as int, i as int));
    }
    proof {
        assert(out@ =~= resume_part_of(pos as int, chunk@, offset as int));
    }
    out
}

/// A download resuming at `offset` sends exactly the stream's bytes from
/// `offset` on, whatever chunks the stream is read in: the parts sent of
/// what was read so far (`read`) and of the next chunk add up to the rest
/// of both.  A client holding the first `offset` bytes and appending what
/// is sent ends with the whole stream.
pub proof fn law_resume_sends_rest(read: Seq<u8>, chunk: Seq<u8>, offset: int)
    ensures
        rest_from(read + chunk, offset) == rest_from(read, offset) + resume_part_of(read.len() as int, chunk, offset),
        0 <= offset <= read.len() ==> read.subrange(0, offset) + rest_from(read, offset) == read,
{
    let s = read + chunk;
    let n = read.len() as int;
    if offset <= 0 {
        assert(rest_from(s, offset) =~= rest_from(read, offset) + resume_part_of(n, chunk, offset));
    } else if offset <= n {
        assert(rest_from(s, offset) =~= rest_from(read, offset) + resume_part_of(n, chunk, offset));
    } else {
        assert(rest_from(s, offset) =~= rest_from(read, offset) + resume_part_of(n, chunk, offset));
    }
    if 0 <= offset <= n {
        assert(read.subrange(0, offset) + rest_from(read, offset) =~= read);
    }
}

/// No upload overwrites an existing file unasked: a file is prepared only
/// for a target that is not a directory, and either the upload was forced,
/// its target did not exist, or the client confirmed the overwrite.
pub proof fn law_no_unconfirmed_overwrite(
    before: TransferSessionView,
    msg: ClientMessage,
    facts: PathFacts,
    after: TransferSessionView,
    action: TransferAction,
)
    requires
        transfer_outcome(before, msg, facts, after, action),
        action is Prepare,
    ensures
        !facts.is_dir,
        match before.confirming {
            Some(p) => msg matches ClientMessage::ConfirmResponse { confirmed } && confirmed
                && action->Prepare_path@ == p,
            None => msg matches ClientMessage::StartUpload { path, force, .. }
                && (force || !facts.exists) && action->Prepare_path@ == path@,
        },
{
}

/// Data is written only into an open upload, and `EndUpload` always leaves
/// the session with no upload open.
pub proof fn law_chunks_need_open_upload(
    before: TransferSessionView,
    msg: ClientMessage,
    facts: PathFacts,
    after: TransferSessionView,
    action: TransferAction,
)
    requires
        transfer_outcome(before, msg, facts, after, action),
    ensures
        action is WriteChunk ==> before.upload is Some && msg is FileChunk,
        (before.confirming is None && msg is EndUpload) ==> after.upload is None,
{
}

/// A download request (with no overwrite question pending) leaves the
/// session as it was; an existing path is sent from the offset the client
/// asked for, and a missing one is answered with an error naming it.
pub proof fn law_download_requests(
    before: TransferSessionView,
    path: String,
    offset: u64,
    facts: PathFacts,
    after: TransferSessionView,
    action: TransferAction,
)
    requires
        before.confirming is None,
        transfer_outcome(before, ClientMessage::RequestDownload { path, offset }, facts, after, action),
    ensures
        after == before,
        facts.exists ==> (action matches TransferAction::Download { path: p, offset: o, .. } && p@ == path@ && o == offset),
        !facts.exists ==> (action matches TransferAction::Reply(ServerMessage::Error { message })
            && message@ == "Path does not exist: "@ + path@),
{
}

} // verus!
