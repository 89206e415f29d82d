//! Connection strings: the JSON address of a node, gzip-compressed and
//! encoded in URL-safe Base64 without padding.
use vstd::prelude::*;
use crate::codec::{base64_url_decoding, base64_url_decode_error, base64_text, lemma_url_base64_text, base64_url_encode,
    base64_url_decode, url_safe_base64_char, gunzip_text_of, gunzip_error_of, gzip_of, gzip, gunzip_text};

verus! {

broadcast use vstd::utf8::encode_utf8_valid_utf8, vstd::utf8::encode_utf8_decode_utf8;

/// The compression level used for connection strings (best compression).
pub const CONNECTION_STRING_LEVEL: u32 = 9;

/// The JSON text that a connection string carries, if it decodes.
pub open spec fn carried_json(s: Seq<char>) -> Option<Seq<char>> {
    match base64_url_decoding(s) {
        Some(b) => gunzip_text_of(b),
        None => None,
    }
}

/// Why a connection string could not be decoded.
#[derive(Debug)]
pub enum ConnectionStringError {
    /// It is not URL-safe Base64 without padding; the decoder's message.
    Base64(String),
    /// Its bytes are not a gzip stream of UTF-8 text; the decoder's message.
    Gzip(String),
}

/// The connection string of a node address given as JSON: gzip at the best
/// level, then URL-safe Base64 without padding.  It uses only URL-safe
/// characters, and decoding it gives the JSON back.
pub fn json_to_connection_string(json: &str) -> (s: String)
    ensures
        s@ == base64_text(gzip_of(vstd::utf8::encode_utf8(json@), CONNECTION_STRING_LEVEL as nat), true, false),
        carried_json(s@) == Some(json@),
        forall|i: int| 0 <= i < s@.len() ==> url_safe_base64_char(#[trigger] s@[i]),
{
    let compressed = gzip(json.as_bytes(), CONNECTION_STRING_LEVEL);
    proof {
        lemma_url_base64_text(compressed@);
    }
    base64_url_encode(compressed.as_slice())
}

/// The JSON node address that a connection string carries.
pub fn connection_string_to_json(s: &str) -> (r: Result<String, ConnectionStringError>)
    ensures
        match r {
            Ok(j) => carried_json(s@) == Some(j@),
            Err(ConnectionStringError::Base64(m)) => base64_url_decoding(s@) is None
                && m@ == base64_url_decode_error(s@),
            Err(ConnectionStringError::Gzip(m)) => base64_url_decoding(s@) matches Some(b)
                && gunzip_text_of(b) is None && m@ == gunzip_error_of(b),
        },
{
    let compressed = match base64_url_decode(s) {
        Ok(b) => b,
        Err(m) => return Err(ConnectionStringError::Base64(m)),
    };
    match gunzip_text(compressed.as_slice()) {
        Ok(t) => Ok(t),
        Err(m) => Err(ConnectionStringError::Gzip(m)),
    }
}

} // verus!
