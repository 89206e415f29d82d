//! The HTTP/HTTPS proxy's reading of a client's first request: where the
//! connection should go.
//!
//! A `CONNECT host:port` request tunnels to `host` (port 443 unless given);
//! any other request goes to the host of its `Host:` header (port 80 unless
//! given).  Lines end with CRLF; words are separated by Unicode white space.
use vstd::prelude::*;
use crate::numparse::{parse_unsigned, parse_u16};
use crate::stdtext::{unicode_lowercase, utf8_lossy, to_lowercase, from_utf8_lossy};
use crate::text::{has_prefix, is_unicode_whitespace, char_is_whitespace, chars_of, string_of, slice_chars,
    starts_with_chars};

verus! {

/// Whether a CRLF starts at position `j` of `s`.
pub open spec fn crlf_at(s: Seq<char>, j: int) -> bool {
    0 <= j && j + 1 < s.len() && s[j] == '\r' && s[j + 1] == '\n'
}

/// Where the line through position `j` ends: the first CRLF at or after `j`,
/// or the end of `s`.
pub open spec fn line_end(s: Seq<char>, j: nat) -> nat
    decreases s.len() - j,
{
    if j >= s.len() {
        s.len()
    } else if crlf_at(s, j as int) {
        j
    } else {
        line_end(s, j + 1)
    }
}

/// A line ends at or after where it starts and within the text, and,
/// before the end of the text, at a CRLF.
pub proof fn lemma_line_end_bounds(s: Seq<char>, j: nat)
    requires
        j <= s.len(),
    ensures
        j <= line_end(s, j) <= s.len(),
        line_end(s, j) < s.len() ==> crlf_at(s, line_end(s, j) as int),
    decreases s.len() - j,
{
    if j < s.len() && !crlf_at(s, j as int) {
        lemma_line_end_bounds(s, j + 1);
    }
}

/// The first line of the header line starting at `start` (or a later one)
/// whose lower-cased text starts with `host:`.
pub open spec fn host_line_from(s: Seq<char>, start: nat) -> Option<Seq<char>>
    decreases s.len() - start,
{
    let e = line_end(s, start);
    let line = s.subrange(start as int, e as int);
    if has_prefix(unicode_lowercase(line), "host:"@) {
        Some(line)
    } else if e >= s.len() {
        None
    } else {
        proof {
            if start <= s.len() {
                lemma_line_end_bounds(s, start);
            }
        }
        host_line_from(s, e + 2)
    }
}

/// The `Host:` header line of a request: the first line after the request
/// line whose lower-cased text starts with `host:`.
pub open spec fn host_header_line(s: Seq<char>) -> Option<Seq<char>> {
    let e = line_end(s, 0);
    if e >= s.len() {
        None
    } else {
        host_line_from(s, e + 2)
    }
}

/// The first position at or after `i` that is not white space (or the end).
pub open spec fn skip_ws(s: Seq<char>, i: nat) -> nat
    decreases s.len() - i,
{
    if i >= s.len() {
        i
    } else if is_unicode_whitespace(s[i as int]) {
        skip_ws(s, i + 1)
    } else {
        i
    }
}

/// The first position at or after `i` that is white space (or the end).
pub open spec fn word_end(s: Seq<char>, i: nat) -> nat
    decreases s.len() - i,
{
    if i >= s.len() {
        i
    } else if is_unicode_whitespace(s[i as int]) {
        i
    } else {
        word_end(s, i + 1)
    }
}

/// The second white-space separated word of `s`, if it has two.
pub open spec fn second_word(s: Seq<char>) -> Option<Seq<char>> {
    let a = skip_ws(s, 0);
    let b = word_end(s, a);
    let c = skip_ws(s, b);
    if a >= s.len() || c >= s.len() {
        None
    } else {
        Some(s.subrange(c as int, word_end(s, c) as int))
    }
}

/// The position of the last `:` in `s`, or `-1`.
pub open spec fn last_colon(s: Seq<char>) -> int
    decreases s.len(),
{
    if s.len() == 0 {
        -1
    } else if s.last() == ':' {
        s.len() - 1
    } else {
        last_colon(s.drop_last())
    }
}

/// Host and port of `host:port`: the text before the last `:` and the port
/// number after it; `default_port` when there is no `:` or the text after it
/// is not a port number.
pub open spec fn host_port_of(hp: Seq<char>, default_port: u16) -> (Seq<char>, u16) {
    let i = last_colon(hp);
    if i < 0 {
        (hp, default_port)
    } else {
        (
            hp.subrange(0, i),
            match parse_unsigned(hp.subrange(i + 1, hp.len() as int), u16::MAX as nat) {
                Some(p) => p as u16,
                None => default_port,
            },
        )
    }
}

/// Where a proxied request goes: host, port, and whether it is a `CONNECT`
/// tunnel; `None` when the request names no target.
pub open spec fn proxy_target_of(req: Seq<char>) -> Option<(Seq<char>, u16, bool)> {
    let line = req.subrange(0, line_end(req, 0) as int);
    if has_prefix(line, "CONNECT"@) {
        match second_word(line) {
            None => None,
            Some(hp) => Some((host_port_of(hp, 443).0, host_port_of(hp, 443).1, true)),
        }
    } else {
        match host_header_line(req) {
            None => None,
            Some(l) => match second_word(l) {
                None => None,
                Some(hp) => Some((host_port_of(hp, 80).0, host_port_of(hp, 80).1, false)),
            },
        }
    }
}

/// The target of a proxied connection.
#[derive(Debug)]
pub struct ProxyTarget {
    pub host: String,
    pub port: u16,
    /// Whether the client asked for a tunnel (`CONNECT`); then the proxy
    /// answers `200 Connection Established` instead of forwarding the
    /// request.
    pub is_connect: bool,
}

/// Whether `t` is the target `v`.
pub open spec fn is_target(t: ProxyTarget, v: (Seq<char>, u16, bool)) -> bool {
    t.host@ == v.0 && t.port == v.1 && t.is_connect == v.2
}

fn line_end_exec(s: &[char], j: usize) -> (e: usize)
    requires
        j <= s.len(),
    ensures
        e == line_end(s@, j as nat),
        j <= e <= s.len(),
        e < s.len() ==> crlf_at(s@, e as int),
{
    let mut k = j;
    while k < s.len() && !(k + 1 < s.len() && s[k] == '\r' && s[k + 1] == '\n')
        invariant
            j <= k <= s.len(),
            line_end(s@, j as nat) == line_end(s@, k as nat),
        decreases s.len() - k,
    {
        k = k + 1;
    }
    k
}

fn skip_ws_exec(s: &[char], i: usize) -> (e: usize)
    requires
        i <= s.len(),
    ensures
        e == skip_ws(s@, i as nat),
        i <= e <= s.len(),
{
    let mut k = i;
    while k < s.len() && char_is_whitespace(s[k])
        invariant
            i <= k <= s.len(),
            skip_ws(s@, i as nat) == skip_ws(s@, k as nat),
        decreases s.len() - k,
    {
        k = k + 1;
    }
    k
}

fn word_end_exec(s: &[char], i: usize) -> (e: usize)
    requires
        i <= s.len(),
    ensures
        e == word_end(s@, i as nat),
        i <= e <= s.len(),
{
    let mut k = i;
    while k < s.len() && !char_is_whitespace(s[k])
        invariant
            i <= k <= s.len(),
            word_end(s@, i as nat) == word_end(s@, k as nat),
        decreases s.len() - k,
    {
        k = k + 1;
    }
    k
}

/// The second white-space separated word of `s`.
pub fn second_word_chars(s: &[char]) -> (r: Option<Vec<char>>)
    ensures
        match r {
            Some(w) => second_word(s@) == Some(w@),
            None => second_word(s@) is None,
        },
{
    let a = skip_ws_exec(s, 0);
    if a >= s.len() {
        return None;
    }
    let b = word_end_exec(s, a);
    let c = skip_ws_exec(s, b);
    if c >= s.len() {
        return None;
    }
    let d = word_end_exec(s, c);
    Some(slice_chars(s, c, d))
}

fn last_colon_exec(s: &[char]) -> (r: Option<usize>)
    ensures
        match r {
            Some(i) => last_colon(s@) == i as int && i < s.len(),
            None => last_colon(s@) < 0,
        },
{
    let mut k = s.len();
    assert(s@.subrange(0, k as int) =~= s@);
    while k > 0
        invariant
            k <= s.len(),
            last_colon(s@) == last_colon(s@.subrange(0, k as int)),
        decreases k,
    {
        assert(s@.subrange(0, k as int).drop_last() =~= s@.subrange(0, k - 1));
        if s[k - 1] == ':' {
            return Some(k - 1);
        }
        k = k - 1;
    }
    None
}

/// Host and port of `host:port`, with `default_port` where no port is given.
pub fn split_host_port(hp: &[char], default_port: u16) -> (r: (String, u16))
    ensures
        r.0@ == host_port_of(hp@, default_port).0,
        r.1 == host_port_of(hp@, default_port).1,
{
    match last_colon_exec(hp) {
        None => (string_of(hp), default_port),
        Some(i) => {
            let host = slice_chars(hp, 0, i);
            let digits = slice_chars(hp, i + 1, hp.len());
            let port = match parse_u16(digits.as_slice()) {
                Some(p) => p,
                None => default_port,
            };
            (string_of(host.as_slice()), port)
        },
    }
}

/// The `Host:` header line of a request.
pub fn host_header_chars(s: &[char]) -> (r: Option<Vec<char>>)
    ensures
        match r {
            Some(l) => host_header_line(s@) == Some(l@),
            None => host_header_line(s@) is None,
        },
{
    let e0 = line_end_exec(s, 0);
    if e0 >= s.len() {
        return None;
    }
    let prefix = chars_of("host:");
    let mut start = e0 + 2;
    while start <= s.len()
        invariant
            start <= s.len(),
            prefix@ == "host:"@,
            host_header_line(s@) == host_line_from(s@, start as nat),
        decreases s.len() - start,
    {
        let e = line_end_exec(s, start);
        let line = slice_chars(s, start, e);
        let text = string_of(line.as_slice());
        let lower = to_lowercase(text.as_str());
        let lower_chars = chars_of(lower.as_str());
        if starts_with_chars(lower_chars.as_slice(), prefix.as_slice()) {
            return Some(line);
        }
        if e >= s.len() {
            return None;
        }
        start = e + 2;
    }
    None
}

/// Where a proxied request (as text) goes.
pub fn proxy_target(request: &str) -> (r: Option<ProxyTarget>)
    ensures
        match r {
            Some(t) => proxy_target_of(request@) matches Some(v) && is_target(t, v),
            None => proxy_target_of(request@) is None,
        },
{
    let s = chars_of(request);
    let e = line_end_exec(s.as_slice(), 0);
    let line = slice_chars(s.as_slice(), 0, e);
    let connect = chars_of("CONNECT");
    if starts_with_chars(line.as_slice(), connect.as_slice()) {
        match second_word_chars(line.as_slice()) {
            None => None,
            Some(hp) => {
                let (host, port) = split_host_port(hp.as_slice(), 443);
                Some(ProxyTarget { host, port, is_connect: true })
            },
        }
    } else {
        match host_header_chars(s.as_slice()) {
            None => None,
            Some(l) => match second_word_chars(l.as_slice()) {
                None => None,
                Some(hp) => {
                    let (host, port) = split_host_port(hp.as_slice(), 80);
                    Some(ProxyTarget { host, port, is_connect: false })
                },
            },
        }
    }
}

/// Where a proxied request goes, read from the first bytes the client sent
/// (decoded as UTF-8, invalid sequences replaced).
pub fn parse_proxy_request(bytes: &[u8]) -> (r: Option<ProxyTarget>)
    ensures
        match r {
            Some(t) => proxy_target_of(utf8_lossy(bytes@)) matches Some(v) && is_target(t, v),
            None => proxy_target_of(utf8_lossy(bytes@)) is None,
        },
{
    let text = from_utf8_lossy(bytes);
    proxy_target(text.as_str())
}

} // verus!
