//! Relayed TCP streams: both ends of a relay keep a table of the streams
//! that are open, and route each message by its stream id.
//!
//! Data for a stream reaches its local socket only while the stream is in
//! the table; a close (or a failed open) takes the stream out of it.
use vstd::prelude::*;
use crate::protocol::{ClientMessage, ServerMessage};
use crate::text::concat2;
use std::collections::HashSet;

verus! {

broadcast use vstd::std_specs::hash::group_hash_axioms;

/// The streams that are open at one end of a relay, and the id the next
/// stream opened from this end gets.
#[derive(Debug)]
pub struct StreamTable {
    open: HashSet<u32>,
    next_id: u32,
}

/// The abstract value of a `StreamTable`.
pub struct StreamTableView {
    pub open: Set<u32>,
    pub next_id: u32,
}

impl View for StreamTable {
    type V = StreamTableView;

    closed spec fn view(&self) -> StreamTableView {
        StreamTableView { open: self.open@, next_id: self.next_id }
    }
}

/// The open streams after the client end takes a message from the server:
/// a close, or a failed open, removes the stream.
pub open spec fn client_streams_after(open: Set<u32>, msg: ServerMessage) -> Set<u32> {
    match msg {
        ServerMessage::TcpCloseResponse { stream_id, .. } => open.remove(stream_id),
        ServerMessage::TcpOpenResponse { stream_id, success, .. } => if success {
            open
        } else {
            open.remove(stream_id)
        },
        _ => open,
    }
}

/// The stream to which the client end hands the data of a message from the
/// server: the message's stream, when that stream is open.
pub open spec fn client_delivery(open: Set<u32>, msg: ServerMessage) -> Option<u32> {
    match msg {
        ServerMessage::TcpDataResponse { stream_id, .. } => if open.contains(stream_id) {
            Some(stream_id)
        } else {
            None
        },
        _ => None,
    }
}

/// The open streams after the server end takes a message from the client:
/// a close removes the stream.
pub open spec fn server_streams_after(open: Set<u32>, msg: ClientMessage) -> Set<u32> {
    match msg {
        ClientMessage::TcpClose { stream_id } => open.remove(stream_id),
        _ => open,
    }
}

/// The stream to which the server end hands the data of a message from the
/// client: the message's stream, when that stream is open.
pub open spec fn server_delivery(open: Set<u32>, msg: ClientMessage) -> Option<u32> {
    match msg {
        ClientMessage::TcpData { stream_id, .. } => if open.contains(stream_id) {
            Some(stream_id)
        } else {
            None
        },
        _ => None,
    }
}

/// What the client end does with a message from the server.
#[derive(Debug)]
pub enum ClientRelayAction {
    /// Hand the message's data to the local socket of `stream_id`.
    Deliver { stream_id: u32 },
    /// The server closed `stream_id` (with an error, if any).
    Closed { stream_id: u32, error: Option<String> },
    /// The server could not open `stream_id`; its error text (empty if none).
    OpenFailed { stream_id: u32, error: String },
    /// Nothing to do.
    Ignore,
}

/// What the server end does with a message from the client.
#[derive(Debug)]
pub enum ServerRelayAction {
    /// Connect to `127.0.0.1:port` for `stream_id`, and report the outcome to
    /// `on_connect_result`.
    Connect { stream_id: u32, port: u16 },
    /// Hand the message's data to the socket of `stream_id`.
    Forward { stream_id: u32 },
    /// The client closed `stream_id`.
    Closed { stream_id: u32 },
    /// The stream's data has nowhere to go.
    Drop,
    /// A message that does not belong to a relay session.
    Unexpected,
}

/// The text of a failed connection's error.
pub open spec fn connect_failed_text(e: Seq<char>) -> Seq<char> {
    "Failed to connect: "@ + e
}

impl StreamTable {
    /// An empty table whose first stream gets id 1.
    pub fn new() -> (t: Self)
        ensures
            t@.open == Set::<u32>::empty(),
            t@.next_id == 1,
    {
        StreamTable { open: HashSet::new(), next_id: 1 }
    }

    /// Whether `stream_id` is open.
    pub fn contains(&self, stream_id: u32) -> (r: bool)
        ensures
            r == self@.open.contains(stream_id),
    {
        self.open.contains(&stream_id)
    }

    /// Takes the id for a new stream opened from this end; ids count up
    /// from 1 (and wrap around after `u32::MAX`).
    pub fn allocate(&mut self) -> (id: u32)
        ensures
            id == old(self)@.next_id,
            final(self)@.next_id == old(self)@.next_id.wrapping_add(1),
            final(self)@.open == old(self)@.open,
    {
        let id = self.next_id;
        self.next_id = self.next_id.wrapping_add(1);
        id
    }

    /// Records `stream_id` as open.
    pub fn insert(&mut self, stream_id: u32)
        ensures
            final(self)@.open == old(self)@.open.insert(stream_id),
            final(self)@.next_id == old(self)@.next_id,
    {
        self.open.insert(stream_id);
    }

    /// Records `stream_id` as closed.
    pub fn remove(&mut self, stream_id: u32)
        ensures
            final(self)@.open == old(self)@.open.remove(stream_id),
            final(self)@.next_id == old(self)@.next_id,
    {
        self.open.remove(&stream_id);
    }

    /// The client end takes a message from the server.
    pub fn on_server_message(&mut self, msg: &ServerMessage) -> (action: ClientRelayAction)
        ensures
            final(self)@.open == client_streams_after(old(self)@.open, *msg),
            final(self)@.next_id == old(self)@.next_id,
            match client_delivery(old(self)@.open, *msg) {
                Some(id) => action matches ClientRelayAction::Deliver { stream_id } && stream_id == id,
                None => !(action is Deliver),
            },
            match *msg {
                ServerMessage::TcpCloseResponse { stream_id, error } =>
                    action matches ClientRelayAction::Closed { stream_id: s, error: e }
                        && s == stream_id && e == error,
                ServerMessage::TcpOpenResponse { stream_id, success, error } => if success {
                    action is Ignore
                } else {
                    action matches ClientRelayAction::OpenFailed { stream_id: s, error: e }
                        && s == stream_id && e@ == match error {
                            Some(t) => t@,
                            None => Seq::<char>::empty(),
                        }
                },
                ServerMessage::TcpDataResponse { .. } => action is Deliver || action is Ignore,
                _ => action is Ignore,
            },
    {
        match msg {
            ServerMessage::TcpDataResponse { stream_id, data } => {
                if self.contains(*stream_id) {
                    ClientRelayAction::Deliver { stream_id: *stream_id }
                } else {
                    ClientRelayAction::Ignore
                }
            },
            ServerMessage::TcpCloseResponse { stream_id, error } => {
                self.remove(*stream_id);
                ClientRelayAction::Closed { stream_id: *stream_id, error: error.clone() }
            },
            ServerMessage::TcpOpenResponse { stream_id, success, error } => {
                if *success {
                    ClientRelayAction::Ignore
                } else {
                    self.remove(*stream_id);
                    let text = match error {
                        Some(t) => t.clone(),
                        None => String::new(),
                    };
                    ClientRelayAction::OpenFailed { stream_id: *stream_id, error: text }
                }
            },
            _ => ClientRelayAction::Ignore,
        }
    }

    /// The server end takes a message from the client.
    pub fn on_client_message(&mut self, msg: &ClientMessage) -> (action: ServerRelayAction)
        ensures
            final(self)@.open == server_streams_after(old(self)@.open, *msg),
            final(self)@.next_id == old(self)@.next_id,
            match server_delivery(old(self)@.open, *msg) {
                Some(id) => action matches ServerRelayAction::Forward { stream_id } && stream_id == id,
                None => !(action is Forward),
            },
            match *msg {
                ClientMessage::TcpOpen { stream_id, destination_port, .. } =>
                    action matches ServerRelayAction::Connect { stream_id: s, port }
                        && s == stream_id && port == destination_port,
                ClientMessage::TcpData { .. } => action is Forward || action is Drop,
                ClientMessage::TcpClose { stream_id } =>
                    action matches ServerRelayAction::Closed { stream_id: s } && s == stream_id,
                _ => action is Unexpected,
            },
    {
        match msg {
            ClientMessage::TcpOpen { stream_id, destination_host, destination_port } => {
                ServerRelayAction::Connect { stream_id: *stream_id, port: *destination_port }
            },
            ClientMessage::TcpData { stream_id, data } => {
                if self.contains(*stream_id) {
                    ServerRelayAction::Forward { stream_id: *stream_id }
                } else {
                    ServerRelayAction::Drop
                }
            },
            ClientMessage::TcpClose { stream_id } => {
                self.remove(*stream_id);
                ServerRelayAction::Closed { stream_id: *stream_id }
            },
            _ => ServerRelayAction::Unexpected,
        }
    }

    /// The server end reports whether it could connect for `stream_id`: on
    /// success the stream is open; the answer to send either way.
    pub fn on_connect_result(&mut self, stream_id: u32, result: Result<(), String>) -> (reply: ServerMessage)
        ensures
            final(self)@.next_id == old(self)@.next_id,
            match result {
                Ok(_) => {
                    &&& final(self)@.open == old(self)@.open.insert(stream_id)
                    &&& reply matches ServerMessage::TcpOpenResponse { stream_id: s, success, error }
                    &&& s == stream_id && success && error is None
                },
                Err(e) => {
                    &&& final(self)@.open == old(self)@.open
                    &&& reply matches ServerMessage::TcpOpenResponse { stream_id: s, success, error }
                    &&& s == stream_id && !success
                    &&& error matches Some(t) && t@ == connect_failed_text(e@)
                },
            },
    {
        match result {
            Ok(_) => {
                self.insert(stream_id);
                ServerMessage::TcpOpenResponse { stream_id, success: true, error: None }
            },
            Err(e) => {
                let text = concat2("Failed to connect: ", e.as_str());
                ServerMessage::TcpOpenResponse { stream_id, success: false, error: Some(text) }
            },
        }
    }

    /// The server end's socket for `stream_id` is done: the stream is closed
    /// and the client told so.
    pub fn on_stream_ended(&mut self, stream_id: u32) -> (reply: ServerMessage)
        ensures
            final(self)@.open == old(self)@.open.remove(stream_id),
            final(self)@.next_id == old(self)@.next_id,
            reply matches ServerMessage::TcpCloseResponse { stream_id: s, error } && s == stream_id && error is None,
    {
        self.remove(stream_id);
        ServerMessage::TcpCloseResponse { stream_id, error: None }
    }
}

/// What the mobile tunnel hands to the connection of a stream, for a
/// message from the server.
#[derive(Debug)]
pub enum TunnelEvent {
    /// The answer to the stream's open request.
    Opened { stream_id: u32, success: bool },
    /// Data for the stream.
    Data { stream_id: u32 },
    /// The server closed the stream.
    Closed { stream_id: u32 },
    /// No open stream to hand it to.
    Ignore,
}

impl StreamTable {
    /// The mobile tunnel takes a message from the server: events go to
    /// open streams only, and a close takes the stream out of the table.
    pub fn on_tunnel_message(&mut self, msg: &ServerMessage) -> (e: TunnelEvent)
        ensures
            final(self)@.next_id == old(self)@.next_id,
            match *msg {
                ServerMessage::TcpOpenResponse { stream_id, success, .. } => {
                    &&& final(self)@.open == old(self)@.open
                    &&& if old(self)@.open.contains(stream_id) {
                        e matches TunnelEvent::Opened { stream_id: s, success: ok } && s == stream_id && ok == success
                    } else {
                        e is Ignore
                    }
                },
                ServerMessage::TcpDataResponse { stream_id, .. } => {
                    &&& final(self)@.open == old(self)@.open
                    &&& if old(self)@.open.contains(stream_id) {
                        e matches TunnelEvent::Data { stream_id: s } && s == stream_id
                    } else {
                        e is Ignore
                    }
                },
                ServerMessage::TcpCloseResponse { stream_id, .. } => {
                    &&& final(self)@.open == old(self)@.open.remove(stream_id)
                    &&& if old(self)@.open.contains(stream_id) {
                        e matches TunnelEvent::Closed { stream_id: s } && s == stream_id
                    } else {
                        e is Ignore
                    }
                },
                _ => final(self)@.open == old(self)@.open && e is Ignore,
            },
    {
        match msg {
            ServerMessage::TcpOpenResponse { stream_id, success, error } => {
                if self.contains(*stream_id) {
                    TunnelEvent::Opened { stream_id: *stream_id, success: *success }
                } else {
                    TunnelEvent::Ignore
                }
            },
            ServerMessage::TcpDataResponse { stream_id, data } => {
                if self.contains(*stream_id) {
                    TunnelEvent::Data { stream_id: *stream_id }
                } else {
                    TunnelEvent::Ignore
                }
            },
            ServerMessage::TcpCloseResponse { stream_id, error } => {
                let known = self.contains(*stream_id);
                self.remove(*stream_id);
                if known {
                    TunnelEvent::Closed { stream_id: *stream_id }
                } else {
                    TunnelEvent::Ignore
                }
            },
            _ => TunnelEvent::Ignore,
        }
    }
}

/// How a tunnelled connection goes on after the first event of its stream:
/// whether it relays data, and the SOCKS5 reply code to send first, if any
/// (0 when opened, 5 when refused, 4 when closed before opening).
pub fn first_event_outcome(e: &TunnelEvent) -> (r: (bool, Option<u8>))
    ensures
        r == match *e {
            TunnelEvent::Opened { success, .. } => if success { (true, Some(0u8)) } else { (false, Some(5u8)) },
            TunnelEvent::Closed { .. } => (false, Some(4u8)),
            _ => (false, None::<u8>),
        },
{
    match e {
        TunnelEvent::Opened { success, .. } => if *success { (true, Some(0u8)) } else { (false, Some(5u8)) },
        TunnelEvent::Closed { .. } => (false, Some(4u8)),
        _ => (false, None),
    }
}

/// Once the server has closed a stream, the client end hands no more data
/// to it, whatever the server sends for it.
pub proof fn law_client_closed_stream_gets_no_data(open: Set<u32>, id: u32, error: Option<String>, data: Vec<u8>)
    ensures
        client_delivery(
            client_streams_after(open, ServerMessage::TcpCloseResponse { stream_id: id, error }),
            ServerMessage::TcpDataResponse { stream_id: id, data },
        ) is None,
{
}

/// Once the client has closed a stream, the server end forwards no more
/// data to it.
pub proof fn law_server_closed_stream_gets_no_data(open: Set<u32>, id: u32, data: Vec<u8>)
    ensures
        server_delivery(
            server_streams_after(open, ClientMessage::TcpClose { stream_id: id }),
            ClientMessage::TcpData { stream_id: id, data },
        ) is None,
{
}

/// Data reaches a stream only while that stream is open.
pub proof fn law_delivery_needs_open_stream(open: Set<u32>, smsg: ServerMessage, cmsg: ClientMessage)
    ensures
        client_delivery(open, smsg) matches Some(id) ==> open.contains(id),
        server_delivery(open, cmsg) matches Some(id) ==> open.contains(id),
{
}

} // verus!
