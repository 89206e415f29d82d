//! The decisions of the web interface: which embedded file answers a URL,
//! how files and terminal traffic are presented to the browser, what an
//! upload form must hold, and the table of port forwardings.
use vstd::prelude::*;
use crate::auth::{AuthError, LoginWithCodeRequest, CLIENT_ID, OAUTH_SCOPES, GOOGLE_AUTH_URL, generate_state_token};
use crate::codec::{random_u32, base64_text, base64_std_encode, pair_views, url_with_params, url_parse_error_of, url_parse_with_params};
use crate::explorer::{FileEntry, FileTime};
use crate::paths::{file_name_of, file_name};
use crate::protocol::{ClientMessage, ServerMessage};
use crate::idtable::{entry_of, keys_of, keys_unique, lemma_entry_at, lemma_push_new, lemma_remove_at};
use crate::stdtext::{utf8_lossy, from_utf8_lossy, utf8_decode};
use crate::text::{chars_of, string_of, slice_chars, starts_with_chars, chars_eq, concat2, concat3, dec,
    dec_signed, u64_to_string, i64_to_string, has_prefix};

verus! {

/// An error answer of the web API: an HTTP status and a message.
#[derive(Debug)]
pub struct ApiError {
    pub status: u16,
    pub message: String,
}

/// The answer when no remote host is connected (503).
pub fn not_connected() -> (e: ApiError)
    ensures
        e.status == 503,
        e.message@ == "Not connected to remote host"@,
{
    ApiError { status: 503, message: "Not connected to remote host".to_owned() }
}

// ---------------------------------------------------------------------------
// Embedded files
// ---------------------------------------------------------------------------

/// `s` without its leading `/` characters.
pub open spec fn trim_leading_slashes(s: Seq<char>) -> Seq<char>
    decreases s.len(),
{
    if s.len() > 0 && s[0] == '/' {
        trim_leading_slashes(s.drop_first())
    } else {
        s
    }
}

/// The embedded file a URL path names: the path without leading `/`, and
/// `index.html` for the root.
pub open spec fn asset_path_of(uri_path: Seq<char>) -> Seq<char> {
    let p = trim_leading_slashes(uri_path);
    if p.len() == 0 {
        "index.html"@
    } else {
        p
    }
}

/// The embedded file a URL path names.
pub fn asset_path(uri_path: &str) -> (r: String)
    ensures
        r@ == asset_path_of(uri_path@),
{
    let v = chars_of(uri_path);
    let mut i: usize = 0;
    assert(v@.subrange(0, v@.len() as int) =~= v@);
    while i < v.len() && v[i] == '/'
        invariant
            i <= v.len(),
            trim_leading_slashes(v@) == trim_leading_slashes(v@.subrange(i as int, v@.len() as int)),
        decreases v.len() - i,
    {
        assert(v@.subrange(i as int, v@.len() as int).drop_first() =~= v@.subrange(i + 1, v@.len() as int));
        i = i + 1;
    }
    if i == v.len() {
        "index.html".to_owned()
    } else {
        let rest = slice_chars(v.as_slice(), i, v.len());
        string_of(rest.as_slice())
    }
}

/// How the web interface answers a request for an embedded file.
#[derive(Clone, Copy, Debug, PartialEq, Eq, Structural)]
pub enum AssetReply {
    /// Serve the file that was asked for.
    Asset,
    /// Serve `index.html` (the single-page app routes the URL itself).
    Index,
    /// Answer 404.
    NotFound,
}

/// The answer for the embedded file `path`: the file when it exists;
/// otherwise `index.html` for any path outside `api/`, when it exists.
pub open spec fn asset_reply_of(path: Seq<char>, exists: bool, index_exists: bool) -> AssetReply {
    if exists {
        AssetReply::Asset
    } else if !has_prefix(path, "api/"@) && index_exists {
        AssetReply::Index
    } else {
        AssetReply::NotFound
    }
}

/// Decides the answer for the embedded file `path`.
pub fn asset_reply(path: &str, exists: bool, index_exists: bool) -> (r: AssetReply)
    ensures
        r == asset_reply_of(path@, exists, index_exists),
{
    if exists {
        return AssetReply::Asset;
    }
    let v = chars_of(path);
    let api = chars_of("api/");
    if !starts_with_chars(v.as_slice(), api.as_slice()) && index_exists {
        AssetReply::Index
    } else {
        AssetReply::NotFound
    }
}

// ---------------------------------------------------------------------------
// Files as the browser sees them
// ---------------------------------------------------------------------------

/// The text under which file content is sent: the content itself when it
/// is UTF-8, else its standard Base64 encoding.
pub open spec fn content_text_of(content: Seq<u8>) -> Seq<char> {
    if vstd::utf8::valid_utf8(content) {
        vstd::utf8::decode_utf8(content)
    } else {
        base64_text(content, false, true)
    }
}

/// The text under which file content is sent to the browser.
pub fn file_content_text(content: &[u8]) -> (r: String)
    ensures
        r@ == content_text_of(content@),
{
    match utf8_decode(content) {
        Some(t) => t,
        None => base64_std_encode(content),
    }
}

/// The name under which a downloaded file is offered: its file name, or
/// `download` when the path has none.
pub open spec fn download_name_of(path: Seq<char>) -> Seq<char> {
    match file_name_of(path) {
        Some(n) => n,
        None => "download"@,
    }
}

/// The `Content-Disposition` header of a download.
pub fn content_disposition(path: &str) -> (r: String)
    ensures
        r@ == "attachment; filename=\""@ + download_name_of(path@) + "\""@,
{
    let name = match file_name(path) {
        Some(n) => n,
        None => "download".to_owned(),
    };
    concat3("attachment; filename=\"", name.as_str(), "\"")
}

/// The seconds since the Unix epoch of a time, as text (`0` for times
/// before the epoch).
pub open spec fn epoch_seconds_text(t: FileTime) -> Seq<char> {
    if t.seconds < 0 {
        "0"@
    } else {
        dec(t.seconds as nat)
    }
}

/// A directory entry as the web interface lists it.
#[derive(Debug)]
pub struct ListedFile {
    pub name: String,
    pub path: String,
    pub is_dir: bool,
    /// Size in bytes, 0 when unknown
    pub size: u64,
    /// Modification time in seconds since the Unix epoch, when known
    pub modified: Option<String>,
}

/// A time as the web interface sends it.
pub fn epoch_seconds(t: FileTime) -> (r: String)
    ensures
        r@ == epoch_seconds_text(t),
{
    if t.seconds < 0 {
        proof {
            reveal_strlit("0");
        }
        "0".to_owned()
    } else {
        u64_to_string(t.seconds as u64)
    }
}

/// A directory entry as the web interface lists it.
pub fn listed_file(entry: FileEntry) -> (r: ListedFile)
    ensures
        r.name@ == entry.name@,
        r.path@ == entry.path@,
        r.is_dir == entry.is_dir,
        r.size == match entry.metadata {
            Some(m) => m.size,
            None => 0,
        },
        match entry.metadata {
            Some(m) => match m.modified {
                Some(t) => r.modified matches Some(s) && s@ == epoch_seconds_text(t),
                None => r.modified is None,
            },
            None => r.modified is None,
        },
{
    let (size, modified) = match &entry.metadata {
        Some(m) => {
            let modified = match m.modified {
                Some(t) => Some(epoch_seconds(t)),
                None => None,
            };
            (m.size, modified)
        },
        None => (0, None),
    };
    ListedFile { name: entry.name, path: entry.path, is_dir: entry.is_dir, size, modified }
}

// ---------------------------------------------------------------------------
// Terminal traffic between the browser and the remote shell
// ---------------------------------------------------------------------------

/// A message of the browser's terminal.
#[derive(Debug)]
pub enum TerminalMessage {
    /// Typed text.
    Input { data: String },
    /// The terminal was resized.
    Resize { cols: u16, rows: u16 },
}

/// The message sent to the remote shell for a terminal message: typed text
/// goes as its UTF-8 bytes.
pub fn terminal_to_shell(msg: TerminalMessage) -> (r: ClientMessage)
    ensures
        match msg {
            TerminalMessage::Input { data } => r matches ClientMessage::KeyEvent { data: d }
                && d@ == vstd::utf8::encode_utf8(data@),
            TerminalMessage::Resize { cols, rows } => r matches ClientMessage::Resize { cols: c, rows: w }
                && c == cols && w == rows,
        },
{
    match msg {
        TerminalMessage::Input { data } => {
            let bytes = vstd::slice::slice_to_vec(data.as_str().as_bytes());
            ClientMessage::KeyEvent { data: bytes }
        },
        TerminalMessage::Resize { cols, rows } => ClientMessage::Resize { cols, rows },
    }
}

/// How an error of the remote shell is shown in the terminal: on a line of
/// its own, in red.
pub open spec fn shell_error_text(message: Seq<char>) -> Seq<char> {
    "\r\n\u{1b}[31mError: "@ + message + "\u{1b}[0m\r\n"@
}

/// The text shown in the browser's terminal for a message of the remote
/// shell: its output (invalid UTF-8 replaced) or its error; nothing for
/// other messages.
pub fn shell_to_terminal(msg: &ServerMessage) -> (r: Option<String>)
    ensures
        match *msg {
            ServerMessage::Output { data } => r matches Some(t) && t@ == utf8_lossy(data@),
            ServerMessage::Error { message } => r matches Some(t) && t@ == shell_error_text(message@),
            _ => r is None,
        },
{
    match msg {
        ServerMessage::Output { data } => Some(from_utf8_lossy(data.as_slice())),
        ServerMessage::Error { message } => {
            Some(concat3("\r\n\u{1b}[31mError: ", message.as_str(), "\u{1b}[0m\r\n"))
        },
        _ => None,
    }
}

// ---------------------------------------------------------------------------
// Uploads from the browser
// ---------------------------------------------------------------------------

/// The fields of an upload form read so far: the file's data and the
/// target path (a later field of the same name replaces an earlier one).
#[derive(Debug)]
pub struct UploadForm {
    pub file: Option<Vec<u8>>,
    pub path: Option<String>,
}

/// What an upload form's field is.
#[derive(Clone, Copy, Debug, PartialEq, Eq, Structural)]
pub enum FormField {
    /// The `file` field
    File,
    /// The `path` field
    Path,
    /// Any other field, which is ignored
    Other,
}

/// The kind of a form field by its name.
pub fn form_field(name: &str) -> (f: FormField)
    ensures
        f == (if name@ == "file"@ {
            FormField::File
        } else if name@ == "path"@ {
            FormField::Path
        } else {
            FormField::Other
        }),
{
    let v = chars_of(name);
    let file = chars_of("file");
    let path = chars_of("path");
    if chars_eq(v.as_slice(), file.as_slice()) {
        FormField::File
    } else if chars_eq(v.as_slice(), path.as_slice()) {
        FormField::Path
    } else {
        FormField::Other
    }
}

/// What an upload needs, once the form is read.
pub fn upload_request(form: UploadForm) -> (r: Result<(String, Vec<u8>), ApiError>)
    ensures
        match form.file {
            None => r matches Err(e) && e.status == 400 && e.message@ == "Missing file data"@,
            Some(data) => match form.path {
                None => r matches Err(e) && e.status == 400 && e.message@ == "Missing target path"@,
                Some(p) => r matches Ok((path, d)) && path@ == p@ && d@ == data@,
            },
        },
{
    match form.file {
        None => Err(ApiError { status: 400, message: "Missing file data".to_owned() }),
        Some(data) => match form.path {
            None => Err(ApiError { status: 400, message: "Missing target path".to_owned() }),
            Some(p) => Ok((p, data)),
        },
    }
}

/// The message that starts an upload from the browser: the whole file to
/// `path`, overwriting whatever is there.
pub fn web_upload_start(path: String, len: usize) -> (m: ClientMessage)
    ensures
        m matches ClientMessage::StartUpload { path: p, size, is_dir, force }
            && p@ == path@ && size == len as u64 && !is_dir && force,
{
    ClientMessage::StartUpload { path, size: len as u64, is_dir: false, force: true }
}

// ---------------------------------------------------------------------------
// Port forwardings
// ---------------------------------------------------------------------------

/// The id of a port forwarding created at `millis` (milliseconds since the
/// Unix epoch) with the random number `nonce`.
pub open spec fn forward_id_text(millis: u64, nonce: u32) -> Seq<char> {
    "pf_"@ + dec(millis as nat) + "_"@ + dec(nonce as nat)
}

/// The id of a port forwarding.
pub fn forward_id(millis: u64, nonce: u32) -> (r: String)
    ensures
        r@ == forward_id_text(millis, nonce),
{
    let a = u64_to_string(millis);
    let b = u64_to_string(nonce as u64);
    let head = concat3("pf_", a.as_str(), "_");
    concat2(head.as_str(), b.as_str())
}

/// A fresh id for a port forwarding created at `millis` (milliseconds
/// since the Unix epoch), with a random number.
pub fn new_forward_id(millis: u64) -> (r: String)
    ensures
        exists|nonce: u32| r@ == forward_id_text(millis, nonce),
{
    let nonce = random_u32();
    forward_id(millis, nonce)
}

/// The id of the relay session that carries a port forwarding.
pub fn forward_session_id(id: &str) -> (r: String)
    ensures
        r@ == "tcp_relay_"@ + id@,
{
    concat2("tcp_relay_", id)
}

/// A port forwarding: a local port relayed to a port of the remote host,
/// and whatever the caller keeps to stop it.
#[derive(Debug)]
pub struct PortForward<T> {
    pub id: String,
    pub name: Option<String>,
    pub local_port: u16,
    pub remote_port: u16,
    pub handle: T,
}

/// The port forwardings that are running, by id.
#[derive(Debug)]
pub struct PortForwards<T> {
    entries: Vec<PortForward<T>>,
}

/// The key by which a forwarding is found: its id.
pub open spec fn by_forward_id<T>() -> spec_fn(PortForward<T>) -> Seq<char> {
    |f: PortForward<T>| f.id@
}

impl<T> PortForwards<T> {
    /// The ids of the running forwardings.
    pub closed spec fn ids(&self) -> Set<Seq<char>> {
        keys_of(self.entries@, by_forward_id())
    }

    /// The running forwarding with this id, if there is one.
    pub closed spec fn forward(&self, id: Seq<char>) -> Option<PortForward<T>> {
        entry_of(self.entries@, by_forward_id(), id)
    }

    /// No two forwardings share an id.
    pub closed spec fn wf(&self) -> bool {
        keys_unique(self.entries@, by_forward_id())
    }

    /// No forwardings.
    pub fn new() -> (t: Self)
        ensures
            t.wf(),
            t.ids() == Set::<Seq<char>>::empty(),
            forall|id: Seq<char>| t.forward(id) is None,
    {
        let t = PortForwards { entries: Vec::new() };
        assert(t.ids() =~= Set::<Seq<char>>::empty());
        t
    }

    fn position(&self, id: &str) -> (r: Option<usize>)
        ensures
            match r {
                Some(i) => i < self.entries@.len() && self.entries@[i as int].id@ == id@,
                None => !self.ids().contains(id@),
            },
    {
        let target = chars_of(id);
        let mut i: usize = 0;
        while i < self.entries.len()
            invariant
                i <= self.entries@.len(),
                target@ == id@,
                forall|j: int| 0 <= j < i ==> (#[trigger] self.entries@[j]).id@ != id@,
            decreases self.entries.len() - i,
        {
            let c = chars_of(self.entries[i].id.as_str());
            if chars_eq(c.as_slice(), target.as_slice()) {
                return Some(i);
            }
            i = i + 1;
        }
        None
    }

    /// Whether a forwarding with this id is running.
    pub fn contains(&self, id: &str) -> (r: bool)
        ensures
            r == self.ids().contains(id@),
    {
        match self.position(id) {
            Some(i) => {
                assert(self.ids().contains(id@)) by {
                    assert(self.entries@[i as int].id@ == id@);
                }
                true
            },
            None => false,
        }
    }

    /// Records a forwarding; one with the same id is replaced.
    pub fn insert(&mut self, f: PortForward<T>)
        requires
            old(self).wf(),
        ensures
            final(self).wf(),
            final(self).ids() == old(self).ids().insert(f.id@),
            forall|x: Seq<char>| final(self).forward(x) == if x == f.id@ { Some(f) } else { old(self).forward(x) },
    {
        let ghost ff = f;
        let ghost fid = f.id@;
        let _ = self.remove(f.id.as_str());
        let ghost mid = *self;
        proof {
            lemma_push_new(self.entries@, by_forward_id(), f);
        }
        self.entries.push(f);
        assert(self.ids() =~= old(self).ids().insert(fid));
        assert forall|x: Seq<char>| self.forward(x) == if x == fid { Some(ff) } else { old(self).forward(x) } by {
            if x != fid {
                assert(self.forward(x) == mid.forward(x));
            }
        }
    }

    /// Takes out the forwarding with this id, if one is running.
    pub fn remove(&mut self, id: &str) -> (r: Option<PortForward<T>>)
        requires
            old(self).wf(),
        ensures
            final(self).wf(),
            r == old(self).forward(id@),
            final(self).ids() == old(self).ids().remove(id@),
            forall|x: Seq<char>| final(self).forward(x) == if x == id@ { None } else { old(self).forward(x) },
            match r {
                Some(f) => old(self).ids().contains(id@) && f.id@ == id@,
                None => !old(self).ids().contains(id@),
            },
    {
        match self.position(id) {
            Some(i) => {
                proof {
                    lemma_entry_at(self.entries@, by_forward_id(), i as int);
                    lemma_remove_at(self.entries@, by_forward_id(), i as int);
                }
                let f = self.entries.remove(i);
                assert(self.ids() =~= old(self).ids().remove(id@));
                Some(f)
            },
            None => {
                assert(self.ids() =~= old(self).ids().remove(id@));
                None
            },
        }
    }

    /// Stops the forwarding `id`: takes it out of the table, or answers 404
    /// when no such forwarding runs.
    pub fn disconnect(&mut self, id: &str) -> (r: Result<PortForward<T>, ApiError>)
        requires
            old(self).wf(),
        ensures
            final(self).wf(),
            final(self).ids() == old(self).ids().remove(id@),
            forall|x: Seq<char>| final(self).forward(x) == if x == id@ { None } else { old(self).forward(x) },
            match r {
                Ok(f) => old(self).forward(id@) == Some(f) && f.id@ == id@,
                Err(e) => old(self).forward(id@) is None && !old(self).ids().contains(id@)
                    && e.status == 404 && e.message@ == "Port forwarding "@ + id@ + " not found"@,
            },
    {
        match self.remove(id) {
            Some(f) => Ok(f),
            None => Err(ApiError { status: 404, message: concat3("Port forwarding ", id, " not found") }),
        }
    }
}

// ---------------------------------------------------------------------------
// Logging in from the browser
// ---------------------------------------------------------------------------

/// The redirect URI of a login from the web interface served on `port`
/// (3000 when the request names none).
pub open spec fn web_redirect_text(port: Option<u16>) -> Seq<char> {
    let p: u16 = match port {
        Some(p) => p,
        None => 3000,
    };
    "http://127.0.0.1:"@ + dec(p as nat) + "/api/auth/callback"@
}

/// The redirect URI of a login from the web interface.
pub fn web_redirect_uri(port: Option<u16>) -> (r: String)
    ensures
        r@ == web_redirect_text(port),
{
    let p: u16 = match port {
        Some(p) => p,
        None => 3000,
    };
    let n = u64_to_string(p as u64);
    concat3("http://127.0.0.1:", n.as_str(), "/api/auth/callback")
}

/// The query of the web login's authorization URL.
pub open spec fn web_auth_params(redirect: Seq<char>, state: Seq<char>) -> Seq<(Seq<char>, Seq<char>)> {
    seq![
        ("client_id"@, CLIENT_ID@),
        ("redirect_uri"@, redirect),
        ("response_type"@, "code"@),
        ("scope"@, OAUTH_SCOPES@),
        ("state"@, state),
    ]
}

/// Google's authorization URL for a login from the web interface served on
/// `port`, with the state token `state`; a failure is answered with 500.
pub fn web_auth_url(state: &str, port: Option<u16>) -> (r: Result<String, ApiError>)
    ensures
        match r {
            Ok(u) => url_with_params(GOOGLE_AUTH_URL@, web_auth_params(web_redirect_text(port), state@)) == Some(u@),
            Err(e) => {
                &&& url_with_params(GOOGLE_AUTH_URL@, web_auth_params(web_redirect_text(port), state@)) is None
                &&& e.status == 500
                &&& e.message@ == "Failed to build URL: "@ + url_parse_error_of(GOOGLE_AUTH_URL@)
            },
        },
{
    let mut params: Vec<(String, String)> = Vec::new();
    params.push(("client_id".to_owned(), CLIENT_ID.to_owned()));
    params.push(("redirect_uri".to_owned(), web_redirect_uri(port)));
    params.push(("response_type".to_owned(), "code".to_owned()));
    params.push(("scope".to_owned(), OAUTH_SCOPES.to_owned()));
    params.push(("state".to_owned(), state.to_owned()));
    assert(pair_views(params@) =~= web_auth_params(web_redirect_text(port), state@));
    match url_parse_with_params(GOOGLE_AUTH_URL, params.as_slice()) {
        Ok(u) => Ok(u),
        Err(m) => Err(ApiError { status: 500, message: concat2("Failed to build URL: ", m.as_str()) }),
    }
}

/// The request that trades the code of a web login for a session: the
/// code is required (400 without it).
pub fn web_login_request(code: Option<String>, port: Option<u16>) -> (r: Result<LoginWithCodeRequest, ApiError>)
    ensures
        match code {
            None => r matches Err(e) && e.status == 400 && e.message@ == "Missing authorization code"@,
            Some(c) => r matches Ok(q) && q.code@ == c@ && q.redirect_uri@ == web_redirect_text(port)
                && q.login_from@ == "web_ui"@,
        },
{
    match code {
        None => Err(ApiError { status: 400, message: "Missing authorization code".to_owned() }),
        Some(c) => Ok(LoginWithCodeRequest { code: c, redirect_uri: web_redirect_uri(port), login_from: "web_ui".to_owned() }),
    }
}

/// The answer to a request to connect while a host is already connected.
pub fn already_connected() -> (r: (bool, String))
    ensures
        !r.0 && r.1@ == "Already connected"@,
{
    (false, "Already connected".to_owned())
}

/// The error for a connection string that does not decode (400).
pub fn invalid_connection_string(detail: &str) -> (e: ApiError)
    ensures
        e.status == 400 && e.message@ == "Invalid connection string: "@ + detail@,
{
    ApiError { status: 400, message: concat2("Invalid connection string: ", detail) }
}

// ---------------------------------------------------------------------------
// Answers of the file API
// ---------------------------------------------------------------------------

/// The operations of the web interface's file API.
#[derive(Clone, Copy, Debug, PartialEq, Eq, Structural)]
pub enum FileApiOp {
    List,
    Metadata,
    Read,
    Delete,
}

/// The message of a failed file-API operation.
pub open spec fn file_api_error_text(op: FileApiOp, detail: Seq<char>) -> Seq<char> {
    match op {
        FileApiOp::List => "Failed to list directory: "@ + detail,
        FileApiOp::Metadata => "Failed to get metadata: "@ + detail,
        FileApiOp::Read => "Failed to read file: "@ + detail,
        FileApiOp::Delete => "Failed to delete file: "@ + detail,
    }
}

/// The answer to a failed file-API operation (500).
pub fn file_api_error(op: FileApiOp, detail: &str) -> (e: ApiError)
    ensures
        e.status == 500,
        e.message@ == file_api_error_text(op, detail@),
{
    let head = match op {
        FileApiOp::List => "Failed to list directory: ",
        FileApiOp::Metadata => "Failed to get metadata: ",
        FileApiOp::Read => "Failed to read file: ",
        FileApiOp::Delete => "Failed to delete file: ",
    };
    ApiError { status: 500, message: concat2(head, detail) }
}

/// The metadata of a file as the web interface sends it.
#[derive(Debug)]
pub struct MetadataResponse {
    pub path: String,
    pub is_dir: bool,
    pub size: u64,
    pub modified: Option<String>,
    pub permissions: Option<u32>,
}

/// The metadata of the file at `path` as the web interface sends it
/// (permissions are not known).
pub fn metadata_response(path: String, m: &crate::explorer::FileMetadata) -> (r: MetadataResponse)
    ensures
        r.path@ == path@,
        r.is_dir == m.is_dir,
        r.size == m.size,
        match m.modified {
            Some(t) => r.modified matches Some(s) && s@ == epoch_seconds_text(t),
            None => r.modified is None,
        },
        r.permissions is None,
{
    let modified = match m.modified {
        Some(t) => Some(epoch_seconds(t)),
        None => None,
    };
    MetadataResponse { path, is_dir: m.is_dir, size: m.size, modified, permissions: None }
}

} // verus!
