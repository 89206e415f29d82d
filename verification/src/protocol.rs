//! The wire protocol between Kerr clients and servers: session types,
//! messages, and the length-prefixed framing of encoded messages.
//!
//! A frame is a 4-byte big-endian length followed by that many bytes of an
//! encoded message.
use vstd::prelude::*;
use crate::codec::random_u64;
use crate::text::{concat3, u64_to_string, dec};

verus! {

/// ALPN protocol identifier of Kerr connections: the bytes of `kerr/0`.
pub const ALPN: [u8; 6] = [107, 101, 114, 114, 47, 48];

/// The kind of session a client opens with its `Hello` message.
#[derive(Clone, Copy, Debug, PartialEq, Eq, Structural)]
pub enum SessionType {
    /// Interactive shell session
    Shell,
    /// File transfer session
    FileTransfer,
    /// File browser session
    FileBrowser,
    /// TCP port forwarding session
    TcpRelay,
    /// Network performance testing session
    Ping,
    /// HTTP/HTTPS proxy session
    HttpProxy,
    /// DNS forwarding session
    Dns,
}

/// Messages sent from client to server.
#[derive(Clone, Debug)]
pub enum ClientMessage {
    /// Initial handshake with session type
    Hello { session_type: SessionType },
    /// Key event from the client terminal
    KeyEvent { data: Vec<u8> },
    /// Request to resize the PTY
    Resize { cols: u16, rows: u16 },
    /// Client is disconnecting
    Disconnect,
    /// Start file upload (send)
    StartUpload { path: String, size: u64, is_dir: bool, force: bool },
    /// File data chunk
    FileChunk { data: Vec<u8> },
    /// End of file upload
    EndUpload,
    /// Start of one file of a directory upload
    FileStart { relative_path: String, size: u64 },
    /// Confirmation response (true = yes, false = no)
    ConfirmResponse { confirmed: bool },
    /// Request file download (pull), resuming at `offset`
    RequestDownload { path: String, offset: u64 },
    /// Request to list directory contents (for file browser)
    FsReadDir { path: String },
    /// Request file metadata (for file browser)
    FsMetadata { path: String },
    /// Request to read file content (for file browser)
    FsReadFile { path: String },
    /// Request file hash (for file browser caching)
    FsHashFile { path: String },
    /// Request to delete a file or directory
    FsDelete { path: String },
    /// Open a TCP connection on the server side
    TcpOpen { stream_id: u32, destination_host: Option<String>, destination_port: u16 },
    /// Data for a relayed TCP connection
    TcpData { stream_id: u32, data: Vec<u8> },
    /// Close a relayed TCP connection
    TcpClose { stream_id: u32 },
    /// Ping request with payload
    PingRequest { data: Vec<u8> },
    /// DNS query to forward
    DnsQuery { query_id: u32, query_data: Vec<u8> },
}

/// Messages sent from server to client.
#[derive(Clone, Debug)]
pub enum ServerMessage {
    /// Output from the PTY
    Output { data: Vec<u8> },
    /// Error message
    Error { message: String },
    /// Acknowledge upload start
    UploadAck,
    /// Ask for confirmation (e.g., file exists, overwrite?)
    ConfirmPrompt { message: String },
    /// Start file download
    StartDownload { size: u64, is_dir: bool },
    /// File data chunk
    FileChunk { data: Vec<u8> },
    /// End of file download
    EndDownload,
    /// Start of one file of a directory download
    FileStart { relative_path: String, size: u64 },
    /// Transfer progress
    Progress { bytes_transferred: u64, total_bytes: u64 },
    /// Directory listing response (for file browser)
    FsDirListing { entries_json: String },
    /// File metadata response (for file browser)
    FsMetadataResponse { metadata_json: String },
    /// File content response (for file browser)
    FsFileContent { data: Vec<u8> },
    /// File hash response (for file browser caching), as a hex string
    FsHashResponse { hash: String },
    /// Result of a delete request
    FsDeleteResponse { success: bool },
    /// Filesystem error notification (for file browser UI feedback)
    FsError { message: String },
    /// Result of opening a relayed TCP connection
    TcpOpenResponse { stream_id: u32, success: bool, error: Option<String> },
    /// Data from a relayed TCP connection
    TcpDataResponse { stream_id: u32, data: Vec<u8> },
    /// A relayed TCP connection was closed
    TcpCloseResponse { stream_id: u32, error: Option<String> },
    /// Ping response echoing back the payload
    PingResponse { data: Vec<u8> },
    /// Answer to a forwarded DNS query
    DnsResponse { query_id: u32, response_data: Vec<u8> },
}

/// A message in either direction.
#[derive(Clone, Debug)]
pub enum MessagePayload {
    Client(ClientMessage),
    Server(ServerMessage),
}

/// A message tagged with the session it belongs to.
#[derive(Clone, Debug)]
pub struct MessageEnvelope {
    pub session_id: String,
    pub payload: MessagePayload,
}

/// The 4 big-endian bytes of `v` (taken modulo 2^32).
pub open spec fn be32(v: nat) -> Seq<u8> {
    let w = v % 0x1_0000_0000;
    seq![(w / 0x100_0000) as u8, (w / 0x1_0000 % 0x100) as u8, (w / 0x100 % 0x100) as u8, (w % 0x100) as u8]
}

/// The value of 4 big-endian bytes.
pub open spec fn be32_value(b: Seq<u8>) -> nat {
    b[0] as nat * 0x100_0000 + b[1] as nat * 0x1_0000 + b[2] as nat * 0x100 + b[3] as nat
}

/// The frame of an encoded message: its length, then its bytes.
pub open spec fn framed(payload: Seq<u8>) -> Seq<u8> {
    be32(payload.len()) + payload
}

/// The first frame of `buf` and the number of bytes it takes, if `buf`
/// holds a whole frame.
pub open spec fn first_frame(buf: Seq<u8>) -> Option<(Seq<u8>, nat)> {
    if buf.len() < 4 {
        None
    } else {
        let n = be32_value(buf.subrange(0, 4));
        if 4 + n <= buf.len() {
            Some((buf.subrange(4, 4 + n as int), 4 + n))
        } else {
            None
        }
    }
}

/// The big-endian bytes of the length of a message, as they precede it
/// on the wire (`(len as u32).to_be_bytes()`).
pub fn length_prefix(len: usize) -> (b: [u8; 4])
    ensures
        b@ == be32(len as nat),
{
    let w: u64 = (len as u64) % 0x1_0000_0000;
    let b0: u8 = (w / 0x100_0000) as u8;
    let b1: u8 = (w / 0x1_0000 % 0x100) as u8;
    let b2: u8 = (w / 0x100 % 0x100) as u8;
    let b3: u8 = (w % 0x100) as u8;
    let b = [b0, b1, b2, b3];
    assert(b@ =~= be32(len as nat));
    b
}

/// The length announced by a frame header (`u32::from_be_bytes`).
pub fn frame_length(header: [u8; 4]) -> (n: u32)
    ensures
        n as nat == be32_value(header@),
{
    (header[0] as u32) * 0x100_0000 + (header[1] as u32) * 0x1_0000 + (header[2] as u32) * 0x100 + (header[3] as u32)
}

/// The frame of an encoded message: the length prefix, then the message.
pub fn frame(payload: &[u8]) -> (f: Vec<u8>)
    ensures
        f@ == framed(payload@),
{
    let h = length_prefix(payload.len());
    let mut f: Vec<u8> = Vec::new();
    f.push(h[0]);
    f.push(h[1]);
    f.push(h[2]);
    f.push(h[3]);
    assert(f@ =~= h@);
    let mut i: usize = 0;
    while i < payload.len()
        invariant
            i <= payload.len(),
            f@ == h@ + payload@.subrange(0, i as int),
            h@ == be32(payload@.len()),
        decreases payload.len() - i,
    {
        f.push(payload[i]);
        i = i + 1;
    }
    assert(payload@.subrange(0, payload.len() as int) =~= payload@);
    f
}

/// Takes the first whole frame from `buf`: the message bytes and the number
/// of bytes consumed, or `None` when `buf` does not yet hold a whole frame.
pub fn take_frame(buf: &[u8]) -> (r: Option<(Vec<u8>, usize)>)
    ensures
        match r {
            Some((p, n)) => first_frame(buf@) == Some((p@, n as nat)),
            None => first_frame(buf@) is None,
        },
{
    if buf.len() < 4 {
        return None;
    }
    let n = frame_length([buf[0], buf[1], buf[2], buf[3]]) as usize;
    assert([buf[0], buf[1], buf[2], buf[3]]@ =~= buf@.subrange(0, 4));
    if n > buf.len() - 4 {
        return None;
    }
    let mut p: Vec<u8> = Vec::new();
    let mut i: usize = 4;
    while i < 4 + n
        invariant
            4 <= i <= 4 + n,
            4 + n <= buf.len(),
            p@ == buf@.subrange(4, i as int),
        decreases 4 + n - i,
    {
        p.push(buf[i]);
        i = i + 1;
    }
    Some((p, 4 + n))
}

proof fn lemma_be32_roundtrip(v: nat)
    requires
        v < 0x1_0000_0000,
    ensures
        be32_value(be32(v)) == v,
{
    let w = v % 0x1_0000_0000;
    assert(w == v);
    assert(be32_value(be32(v)) == (w / 0x100_0000) * 0x100_0000 + (w / 0x1_0000 % 0x100) * 0x1_0000
        + (w / 0x100 % 0x100) * 0x100 + w % 0x100) by {
        assert((w / 0x100_0000) < 0x100);
    }
    assert((w / 0x100_0000) * 0x100_0000 + (w / 0x1_0000 % 0x100) * 0x1_0000 + (w / 0x100 % 0x100) * 0x100 + w % 0x100 == w) by (nonlinear_arith)
        requires
            w < 0x1_0000_0000,
    ;
}

/// Reading a frame gives back the message that was framed, and consumes
/// exactly its frame, whatever follows it (for messages shorter than 4 GiB,
/// whose length fits the prefix).
pub proof fn law_frame_roundtrip(payload: Seq<u8>, rest: Seq<u8>)
    requires
        payload.len() < 0x1_0000_0000,
    ensures
        first_frame(framed(payload) + rest) == Some((payload, 4 + payload.len())),
{
    lemma_be32_roundtrip(payload.len());
    let buf = framed(payload) + rest;
    assert(buf.subrange(0, 4) =~= be32(payload.len()));
    assert(buf.subrange(4, 4 + payload.len() as int) =~= payload);
}

/// The transaction id of a DNS packet (its first two bytes, big-endian), or
/// `0` when the packet is shorter.
pub fn dns_transaction_id(packet: &[u8]) -> (id: u16)
    ensures
        id == (if packet@.len() >= 2 {
            (packet@[0] as nat * 256 + packet@[1] as nat) as u16
        } else {
            0u16
        }),
{
    if packet.len() >= 2 {
        (packet[0] as u16) * 256 + (packet[1] as u16)
    } else {
        0
    }
}

/// The concatenation of a sequence of byte strings.
pub open spec fn concat_all(parts: Seq<Seq<u8>>) -> Seq<u8>
    decreases parts.len(),
{
    if parts.len() == 0 {
        Seq::<u8>::empty()
    } else {
        concat_all(parts.drop_last()) + parts.last()
    }
}

/// The byte strings held by a vector of vectors.
pub open spec fn byte_views(v: Seq<Vec<u8>>) -> Seq<Seq<u8>> {
    v.map_values(|x: Vec<u8>| x@)
}

/// Splits `data` into consecutive chunks of `size` bytes, the last one
/// shorter if needed (as `<[u8]>::chunks` does).
pub fn split_chunks(data: &[u8], size: usize) -> (r: Vec<Vec<u8>>)
    requires
        size > 0,
    ensures
        concat_all(byte_views(r@)) == data@,
        forall|i: int| 0 <= i < r@.len() ==> 0 < (#[trigger] r@[i])@.len() <= size,
        forall|i: int| 0 <= i < r@.len() - 1 ==> (#[trigger] r@[i])@.len() == size,
{
    let mut r: Vec<Vec<u8>> = Vec::new();
    let mut start: usize = 0;
    while start < data.len()
        invariant
            start <= data.len(),
            size > 0,
            concat_all(byte_views(r@)) == data@.subrange(0, start as int),
            forall|i: int| 0 <= i < r@.len() ==> 0 < (#[trigger] r@[i])@.len() <= size,
            forall|i: int| 0 <= i < r@.len() ==> (#[trigger] r@[i])@.len() == size,
        decreases data.len() - start,
    {
        let end = if data.len() - start > size { start + size } else { data.len() };
        let mut c: Vec<u8> = Vec::new();
        let mut i = start;
        while i < end
            invariant
                start <= i <= end,
                end <= data.len(),
                c@ == data@.subrange(start as int, i as int),
            decreases end - i,
        {
            c.push(data[i]);
            i = i + 1;
        }
        let ghost before = r@;
        r.push(c);
        proof {
            assert(byte_views(r@).drop_last() =~= byte_views(before));
            assert(data@.subrange(0, end as int) =~= data@.subrange(0, start as int) + data@.subrange(start as int, end as int));
        }
        if end < data.len() {
            start = end;
        } else {
            start = end;
            assert(data@.subrange(0, start as int) =~= data@);
            return r;
        }
    }
    assert(data@.subrange(0, start as int) =~= data@);
    r
}

/// The id of a client session of kind `kind` (such as `send` or `ping`)
/// with number `n`: `<kind>_<n>`.
pub open spec fn session_id_text(kind: Seq<char>, n: u64) -> Seq<char> {
    kind + "_"@ + dec(n as nat)
}

/// The id of a client session with number `n`.
pub fn session_id_with(kind: &str, n: u64) -> (r: String)
    ensures
        r@ == session_id_text(kind@, n),
{
    let num = u64_to_string(n);
    concat3(kind, "_", num.as_str())
}

/// A fresh id for a client session of kind `kind`, numbered at random.
pub fn new_session_id(kind: &str) -> (r: String)
    ensures
        exists|n: u64| r@ == session_id_text(kind@, n),
{
    let n = random_u64();
    session_id_with(kind, n)
}

} // verus!
