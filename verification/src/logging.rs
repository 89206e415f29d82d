//! The server's log: line endings for a terminal in raw mode, and the
//! header written when the server starts.
use vstd::prelude::*;
use crate::text::{chars_of, chars_eq, concat2, push_char, push_chars};

verus! {

/// `s` with every line feed preceded by a carriage return.
pub open spec fn crlf_of(s: Seq<u8>) -> Seq<u8>
    decreases s.len(),
{
    if s.len() == 0 {
        Seq::empty()
    } else {
        crlf_of(s.drop_last()) + (if s.last() == 10u8 { seq![13u8, 10u8] } else { seq![s.last()] })
    }
}

/// Converts line feeds to carriage return and line feed, as a terminal in
/// raw mode needs them.
pub fn to_crlf(buf: &[u8]) -> (out: Vec<u8>)
    ensures
        out@ == crlf_of(buf@),
{
    let mut out: Vec<u8> = Vec::new();
    let mut i: usize = 0;
    while i < buf.len()
        invariant
            i <= buf.len(),
            out@ == crlf_of(buf@.subrange(0, i as int)),
        decreases buf.len() - i,
    {
        assert(buf@.subrange(0, i + 1).drop_last() =~= buf@.subrange(0, i as int));
        if buf[i] == 10u8 {
            out.push(13u8);
            out.push(10u8);
        } else {
            out.push(buf[i]);
        }
        i = i + 1;
        assert(out@ =~= crlf_of(buf@.subrange(0, i as int)));
    }
    assert(buf@.subrange(0, buf.len() as int) =~= buf@);
    out
}

/// Converting two pieces one after the other gives what converting them
/// together gives: a writer may be handed its output in any pieces.
pub proof fn law_crlf_splits(a: Seq<u8>, b: Seq<u8>)
    ensures
        crlf_of(a + b) == crlf_of(a) + crlf_of(b),
    decreases b.len(),
{
    if b.len() == 0 {
        assert(a + b =~= a);
        assert(crlf_of(a) + crlf_of(b) =~= crlf_of(a));
    } else {
        law_crlf_splits(a, b.drop_last());
        assert((a + b).drop_last() =~= a + b.drop_last());
        assert((a + b).last() == b.last());
        let tail = if b.last() == 10u8 { seq![13u8, 10u8] } else { seq![b.last()] };
        assert(crlf_of(a) + crlf_of(b.drop_last()) + tail =~= crlf_of(a) + (crlf_of(b.drop_last()) + tail));
    }
}

/// The user line of the log header: the user's name, or `unknown`; root is
/// marked as privileged.
pub open spec fn user_info_text(user: Option<Seq<char>>) -> Seq<char> {
    let name = match user {
        Some(u) => u,
        None => "unknown"@,
    };
    if name == "root"@ {
        "USER=root (privileged)"@
    } else {
        "USER="@ + name
    }
}

/// The user line of the log header.
pub fn user_info(user: Option<String>) -> (r: String)
    ensures
        r@ == user_info_text(match user {
            Some(u) => Some(u@),
            None => None,
        }),
{
    let name = match user {
        Some(u) => u,
        None => "unknown".to_owned(),
    };
    let v = chars_of(name.as_str());
    let root = chars_of("root");
    if chars_eq(v.as_slice(), root.as_slice()) {
        "USER=root (privileged)".to_owned()
    } else {
        concat2("USER=", name.as_str())
    }
}

/// The separator line of the log header: 80 `=`.
pub open spec fn separator_text() -> Seq<char> {
    Seq::new(80, |i: int| '=')
}

/// The header written to the log when the server starts.
pub open spec fn log_header_text(timestamp: Seq<char>, user_info: Seq<char>, log_path: Seq<char>) -> Seq<char> {
    "\n"@ + separator_text() + "\n"@ + "Kerr Server Started - "@ + timestamp + "\n"@ + user_info + "\n"@
        + "Log file: "@ + log_path + "\n"@ + separator_text() + "\n\n"@
}

fn separator() -> (s: String)
    ensures
        s@ == separator_text(),
{
    let mut s = String::new();
    let mut i: usize = 0;
    while i < 80
        invariant
            i <= 80,
            s@ == Seq::new(i as nat, |k: int| '='),
        decreases 80 - i,
    {
        push_char(&mut s, '=');
        i = i + 1;
        assert(s@ =~= Seq::new(i as nat, |k: int| '='));
    }
    s
}

/// The header written to the log when the server starts.
pub fn log_header(timestamp: &str, user_info: &str, log_path: &str) -> (r: String)
    ensures
        r@ == log_header_text(timestamp@, user_info@, log_path@),
{
    let sep = separator();
    let mut r = "\n".to_owned();
    r.append(sep.as_str());
    r.append("\n");
    r.append("Kerr Server Started - ");
    r.append(timestamp);
    r.append("\n");
    r.append(user_info);
    r.append("\n");
    r.append("Log file: ");
    r.append(log_path);
    r.append("\n");
    r.append(sep.as_str());
    r.append("\n\n");
    r
}

} // verus!
