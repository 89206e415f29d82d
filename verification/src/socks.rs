//! The SOCKS5 handshake of the mobile VPN tunnel: reading a client's
//! greeting and request from the bytes received so far, and the replies.
//!
//! Only the CONNECT command without authentication is served.
use vstd::prelude::*;
use crate::stdtext::utf8_decode;
use crate::text::{dec, digit_char, u64_to_string, concat2, push_char, push_chars, dec_chars, digit_to_char};

verus! {

/// Why a SOCKS5 handshake failed.
#[derive(Debug)]
pub enum Socks5Error {
    /// The greeting is not SOCKS5; its version byte.
    NotSocks5 { version: u8 },
    /// The request is not SOCKS5.
    BadRequestVersion,
    /// The request's address type is unknown.
    UnknownAddressType { atyp: u8 },
    /// The requested domain name is not UTF-8; its bytes.
    InvalidDomain(Vec<u8>),
    /// The requested command is not CONNECT.
    UnsupportedCommand { cmd: u8 },
}

/// The outcome of reading a handshake message from the bytes received.
#[derive(Debug)]
pub enum Parse<T> {
    /// More bytes are needed.
    Incomplete,
    /// The message is invalid.
    Invalid(Socks5Error),
    /// The message, and the number of bytes it takes.
    Done(T, usize),
}

/// What a greeting needs: its version byte 5, then the number of methods
/// and the methods themselves.
pub open spec fn greeting_len(buf: Seq<u8>) -> Option<nat> {
    if buf.len() < 2 || buf[0] != 5 {
        None
    } else {
        Some(2 + buf[1] as nat)
    }
}

/// Reads a client's greeting (the methods offered are not looked at: the
/// answer is always "no authentication").
pub fn parse_greeting(buf: &[u8]) -> (r: Parse<()>)
    ensures
        buf@.len() < 2 ==> r is Incomplete,
        buf@.len() >= 2 && buf@[0] != 5 ==> (r matches Parse::Invalid(Socks5Error::NotSocks5 { version }) && version == buf@[0]),
        greeting_len(buf@) matches Some(n) ==> if buf@.len() < n {
            r is Incomplete
        } else {
            r matches Parse::Done(_, used) && used == n
        },
{
    if buf.len() < 2 {
        return Parse::Incomplete;
    }
    if buf[0] != 5 {
        return Parse::Invalid(Socks5Error::NotSocks5 { version: buf[0] });
    }
    let n: usize = 2 + buf[1] as usize;
    if buf.len() < n {
        Parse::Incomplete
    } else {
        Parse::Done((), n)
    }
}

/// The answer to a greeting: version 5, no authentication.
pub fn greeting_reply() -> (r: [u8; 2])
    ensures
        r@ == seq![5u8, 0u8],
{
    let r = [5u8, 0u8];
    assert(r@ =~= seq![5u8, 0u8]);
    r
}

/// A client's request: command, destination host and port.
#[derive(Debug)]
pub struct Socks5Request {
    pub cmd: u8,
    pub host: String,
    pub port: u16,
}

/// The two lowercase hexadecimal digits of a byte.
pub open spec fn hex2(b: u8) -> Seq<char> {
    seq![hex_digit((b / 16) as nat), hex_digit((b % 16) as nat)]
}

/// The lowercase hexadecimal digit of `d < 16`.
pub open spec fn hex_digit(d: nat) -> char {
    if d < 10 {
        digit_char(d)
    } else {
        (87 + d) as char
    }
}

/// An IPv4 address as dotted decimal.
pub open spec fn ipv4_text(a: Seq<u8>) -> Seq<char> {
    dec(a[0] as nat) + "."@ + dec(a[1] as nat) + "."@ + dec(a[2] as nat) + "."@ + dec(a[3] as nat)
}

/// The `i`-th group of an IPv6 address: its two bytes in hex.
pub open spec fn ipv6_group(a: Seq<u8>, i: int) -> Seq<char> {
    hex2(a[2 * i]) + hex2(a[2 * i + 1])
}

/// The first `n` groups of an IPv6 address, separated by `:`.
pub open spec fn ipv6_groups(a: Seq<u8>, n: nat) -> Seq<char>
    decreases n,
{
    if n == 0 {
        Seq::empty()
    } else if n == 1 {
        ipv6_group(a, 0)
    } else {
        ipv6_groups(a, (n - 1) as nat) + ":"@ + ipv6_group(a, n - 1)
    }
}

/// The port in the last two bytes of a request (big-endian).
pub open spec fn port_at(buf: Seq<u8>, at: int) -> u16 {
    (buf[at] as nat * 256 + buf[at + 1] as nat) as u16
}

/// What a request holds, read from the bytes received: `None` while they
/// are not enough; else the error, or the command, the host text, the port
/// and the length taken.
pub open spec fn request_of(buf: Seq<u8>) -> Option<Result<(u8, Seq<char>, u16, nat), u8>> {
    if buf.len() < 4 {
        None
    } else if buf[0] != 5 {
        Some(Err(0))
    } else if buf[3] == 1 {
        if buf.len() < 10 {
            None
        } else {
            Some(Ok((buf[1], ipv4_text(buf.subrange(4, 8)), port_at(buf, 8), 10)))
        }
    } else if buf[3] == 4 {
        if buf.len() < 22 {
            None
        } else {
            Some(Ok((buf[1], ipv6_groups(buf.subrange(4, 20), 8), port_at(buf, 20), 22)))
        }
    } else if buf[3] == 3 {
        if buf.len() < 5 || buf.len() < 7 + buf[4] {
            None
        } else {
            let d = buf.subrange(5, 5 + buf[4]);
            if vstd::utf8::valid_utf8(d) {
                Some(Ok((buf[1], vstd::utf8::decode_utf8(d), port_at(buf, 5 + buf[4]), (7 + buf[4]) as nat)))
            } else {
                Some(Err(3))
            }
        }
    } else {
        Some(Err(buf[3]))
    }
}

fn hex_char(d: u8) -> (c: char)
    requires
        d < 16,
    ensures
        c == hex_digit(d as nat),
{
    if d < 10 {
        digit_to_char(d as u64)
    } else if d == 10 {
        'a'
    } else if d == 11 {
        'b'
    } else if d == 12 {
        'c'
    } else if d == 13 {
        'd'
    } else if d == 14 {
        'e'
    } else {
        'f'
    }
}

fn ipv4_string(a: &[u8]) -> (s: String)
    requires
        a@.len() >= 4,
    ensures
        s@ == ipv4_text(a@),
{
    let mut s = u64_to_string(a[0] as u64);
    s.append(".");
    let b = u64_to_string(a[1] as u64);
    s.append(b.as_str());
    s.append(".");
    let c = u64_to_string(a[2] as u64);
    s.append(c.as_str());
    s.append(".");
    let d = u64_to_string(a[3] as u64);
    s.append(d.as_str());
    s
}

fn ipv6_string(a: &[u8]) -> (s: String)
    requires
        a@.len() == 16,
    ensures
        s@ == ipv6_groups(a@, 8),
{
    let mut s = String::new();
    let mut i: usize = 0;
    while i < 8
        invariant
            i <= 8,
            a@.len() == 16,
            s@ == ipv6_groups(a@, i as nat),
        decreases 8 - i,
    {
        if i > 0 {
            push_char(&mut s, ':');
        }
        let x = a[2 * i];
        let y = a[2 * i + 1];
        push_char(&mut s, hex_char(x / 16));
        push_char(&mut s, hex_char(x % 16));
        push_char(&mut s, hex_char(y / 16));
        push_char(&mut s, hex_char(y % 16));
        proof {
            reveal_strlit(":");
            if i == 0 {
                assert(s@ =~= ipv6_group(a@, 0));
            } else {
                assert(s@ =~= ipv6_groups(a@, i as nat) + ":"@ + ipv6_group(a@, i as int));
            }
        }
        i = i + 1;
    }
    s
}

fn copy_range(buf: &[u8], from: usize, to: usize) -> (r: Vec<u8>)
    requires
        from <= to <= buf.len(),
    ensures
        r@ == buf@.subrange(from as int, to as int),
{
    let mut r: Vec<u8> = Vec::new();
    let mut i = from;
    while i < to
        invariant
            from <= i <= to <= buf.len(),
            r@ == buf@.subrange(from as int, i as int),
        decreases to - i,
    {
        r.push(buf[i]);
        i = i + 1;
    }
    r
}

/// Reads a client's request from the bytes received so far.
pub fn parse_request(buf: &[u8]) -> (r: Parse<Socks5Request>)
    ensures
        match request_of(buf@) {
            None => r is Incomplete,
            Some(Ok((cmd, host, port, n))) => r matches Parse::Done(q, used)
                && q.cmd == cmd && q.host@ == host && q.port == port && used == n,
            Some(Err(code)) => if buf@[0] != 5 {
                r matches Parse::Invalid(Socks5Error::BadRequestVersion)
            } else if buf@[3] == 3 {
                r matches Parse::Invalid(Socks5Error::InvalidDomain(d)) && d@ == buf@.subrange(5, 5 + buf@[4])
            } else {
                r matches Parse::Invalid(Socks5Error::UnknownAddressType { atyp }) && atyp == buf@[3]
            },
        },
{
    if buf.len() < 4 {
        return Parse::Incomplete;
    }
    if buf[0] != 5 {
        return Parse::Invalid(Socks5Error::BadRequestVersion);
    }
    let cmd = buf[1];
    let atyp = buf[3];
    if atyp == 1 {
        if buf.len() < 10 {
            return Parse::Incomplete;
        }
        let ip = copy_range(buf, 4, 8);
        let host = ipv4_string(ip.as_slice());
        let port = (buf[8] as u16) * 256 + (buf[9] as u16);
        Parse::Done(Socks5Request { cmd, host, port }, 10)
    } else if atyp == 4 {
        if buf.len() < 22 {
            return Parse::Incomplete;
        }
        let ip = copy_range(buf, 4, 20);
        let host = ipv6_string(ip.as_slice());
        let port = (buf[20] as u16) * 256 + (buf[21] as u16);
        Parse::Done(Socks5Request { cmd, host, port }, 22)
    } else if atyp == 3 {
        if buf.len() < 5 {
            return Parse::Incomplete;
        }
        let len: usize = buf[4] as usize;
        if buf.len() < 7 + len {
            return Parse::Incomplete;
        }
        let domain = copy_range(buf, 5, 5 + len);
        match utf8_decode(domain.as_slice()) {
            Some(host) => {
                let port = (buf[5 + len] as u16) * 256 + (buf[6 + len] as u16);
                Parse::Done(Socks5Request { cmd, host, port }, 7 + len)
            },
            None => Parse::Invalid(Socks5Error::InvalidDomain(domain)),
        }
    } else {
        Parse::Invalid(Socks5Error::UnknownAddressType { atyp })
    }
}

/// A SOCKS5 reply with code `rep`, bound to 0.0.0.0:0.
pub open spec fn reply_bytes(rep: u8) -> Seq<u8> {
    seq![5u8, rep, 0u8, 1u8, 0u8, 0u8, 0u8, 0u8, 0u8, 0u8]
}

/// The reply with code `rep`: 0 for success, 4 when the host is
/// unreachable, 5 when the connection is refused, 7 for an unsupported
/// command.
pub fn socks_reply(rep: u8) -> (r: [u8; 10])
    ensures
        r@ == reply_bytes(rep),
        r@.len() == 10 && r@[0] == 5 && r@[1] == rep,
{
    let r = [5u8, rep, 0u8, 1u8, 0u8, 0u8, 0u8, 0u8, 0u8, 0u8];
    assert(r@ =~= reply_bytes(rep));
    r
}

/// Whether the request can be served: only CONNECT is; any other command
/// is answered with reply 7 and the error.
pub fn check_command(req: &Socks5Request) -> (r: Result<(), ([u8; 10], Socks5Error)>)
    ensures
        req.cmd == 1 <==> r is Ok,
        r matches Err((bytes, e)) ==> (bytes@ == reply_bytes(7)
            && (e matches Socks5Error::UnsupportedCommand { cmd } && cmd == req.cmd)),
{
    if req.cmd == 1 {
        Ok(())
    } else {
        Err((socks_reply(7), Socks5Error::UnsupportedCommand { cmd: req.cmd }))
    }
}

impl Socks5Error {
    /// The text of the error (a domain that is not UTF-8 is described by
    /// the caller, from its bytes).
    pub fn message(&self) -> (r: Option<String>)
        ensures
            match *self {
                Socks5Error::NotSocks5 { version } => r matches Some(t) && t@ == "Not SOCKS5 (VER="@ + dec(version as nat) + ")"@,
                Socks5Error::BadRequestVersion => r matches Some(t) && t@ == "Bad SOCKS5 version in request"@,
                Socks5Error::UnknownAddressType { atyp } => r matches Some(t) && t@ == "Unknown ATYP: "@ + dec(atyp as nat),
                Socks5Error::InvalidDomain(_) => r is None,
                Socks5Error::UnsupportedCommand { cmd } => r matches Some(t) && t@ == "Unsupported SOCKS5 command: "@ + dec(cmd as nat),
            },
    {
        match self {
            Socks5Error::NotSocks5 { version } => {
                let v = u64_to_string(*version as u64);
                let a = concat2("Not SOCKS5 (VER=", v.as_str());
                Some(concat2(a.as_str(), ")"))
            },
            Socks5Error::BadRequestVersion => Some("Bad SOCKS5 version in request".to_owned()),
            Socks5Error::UnknownAddressType { atyp } => {
                let v = u64_to_string(*atyp as u64);
                Some(concat2("Unknown ATYP: ", v.as_str()))
            },
            Socks5Error::InvalidDomain(_) => None,
            Socks5Error::UnsupportedCommand { cmd } => {
                let v = u64_to_string(*cmd as u64);
                Some(concat2("Unsupported SOCKS5 command: ", v.as_str()))
            },
        }
    }
}

/// A reply is ten bytes: version 5, the reply code asked for, a zero
/// reserved byte, address type 1 (IPv4) and a zero address and port.  So
/// replies with different codes differ, and only code 0 gives the success
/// reply.
pub proof fn law_reply_carries_its_code(rep: u8, other: u8)
    ensures
        reply_bytes(rep).len() == 10,
        reply_bytes(rep)[0] == 5,
        reply_bytes(rep)[1] == rep,
        reply_bytes(rep)[2] == 0,
        reply_bytes(rep)[3] == 1,
        forall|i: int| 4 <= i < 10 ==> reply_bytes(rep)[i] == 0,
        rep != other ==> reply_bytes(rep) != reply_bytes(other),
{
    if rep != other {
        assert(reply_bytes(rep)[1] != reply_bytes(other)[1]);
    }
}

} // verus!
