//! Calls into the outside crates that do the encoding work: hashing
//! (`blake3`), Base64 (`base64`), gzip (`flate2`), date formatting
//! (`chrono`), URLs (`url`), randomness (`rand`) and the user's directories
//! (`directories`).  Each call stands behind one small function whose
//! contract is trusted; what the crate computes is named, not restated.
use vstd::prelude::*;
use base64::Engine;
use rand::Rng;
use std::io::{Read, Write};

verus! {

/// What `blake3::hash(data).to_hex()` gives: the lowercase hex digest.
pub uninterp spec fn blake3_hex_of(data: Seq<u8>) -> Seq<char>;

/// What the URL-safe, unpadded Base64 decoder gives for `text`, when it accepts it.
pub uninterp spec fn base64_url_decoding(text: Seq<char>) -> Option<Seq<u8>>;

/// The message of the URL-safe, unpadded Base64 decoder's error for `text`.
pub uninterp spec fn base64_url_decode_error(text: Seq<char>) -> Seq<char>;

/// What a gzip encoder at compression `level` writes for `data`.
pub uninterp spec fn gzip_of(data: Seq<u8>, level: nat) -> Seq<u8>;

/// The text that a gzip decoder reads from `data`, when `data` is a whole
/// gzip stream of UTF-8 text.
pub uninterp spec fn gunzip_text_of(data: Seq<u8>) -> Option<Seq<char>>;

/// The message of the gzip decoder's error for `data`.
pub uninterp spec fn gunzip_error_of(data: Seq<u8>) -> Seq<char>;

/// The text of the UTC date-time `seconds` after the Unix epoch in format
/// `fmt` (one of the supported patterns), as `chrono` writes it, when
/// `chrono` can represent that time.
pub uninterp spec fn utc_time_text(seconds: int, fmt: Seq<char>) -> Option<Seq<char>>;

/// The URL `base` with the query pairs `params` appended, as
/// `url::Url::parse_with_params` serializes it, when `base` parses.
pub uninterp spec fn url_with_params(base: Seq<char>, params: Seq<(Seq<char>, Seq<char>)>) -> Option<Seq<char>>;

/// The decoded query pairs of a URL, as `url::Url::query_pairs` yields
/// them, when the URL parses.
pub uninterp spec fn url_query_pairs_of(url: Seq<char>) -> Option<Seq<(Seq<char>, Seq<char>)>>;

/// The message of `url`'s parse error for a URL.
pub uninterp spec fn url_parse_error_of(url: Seq<char>) -> Seq<char>;

/// Whether every character is a lowercase hexadecimal digit.
pub open spec fn is_lower_hex(s: Seq<char>) -> bool {
    forall|i: int| 0 <= i < s.len() ==> ('0' <= #[trigger] s[i] <= '9' || 'a' <= s[i] <= 'f')
}

/// `blake3::hash(data).to_hex()`: the 64 lowercase hex digits of the
/// BLAKE3 digest of `data` (the crate's documentation promises lowercase
/// hex of the 32-byte digest).
#[verifier::external_body]
pub(crate) fn blake3_hex(data: &[u8]) -> (r: String)
    ensures
        r@ == blake3_hex_of(data@),
        r@.len() == 64,
        is_lower_hex(r@),
{
    blake3::hash(data).to_hex().to_string()
}

/// A character of the URL-safe Base64 alphabet: letters, digits, `-` and
/// `_`.
pub open spec fn url_safe_base64_char(c: char) -> bool {
    ('A' <= c <= 'Z') || ('a' <= c <= 'z') || ('0' <= c <= '9') || c == '-' || c == '_'
}

/// The Base64 digit for the 6-bit value `v` (RFC 4648): `A`-`Z`, `a`-`z`,
/// `0`-`9`, then `-` and `_` in the URL-safe alphabet or `+` and `/` in
/// the standard one.
pub open spec fn base64_char(v: int, url_safe: bool) -> char {
    if v < 26 {
        (65 + v) as char
    } else if v < 52 {
        (97 + (v - 26)) as char
    } else if v < 62 {
        (48 + (v - 52)) as char
    } else if v == 62 {
        if url_safe { '-' } else { '+' }
    } else {
        if url_safe { '_' } else { '/' }
    }
}

/// The Base64 text of `data` (RFC 4648): every three bytes become four
/// digits of six bits each; a last group of one or two bytes becomes two or
/// three digits (its missing bits zero), followed by `=` padding up to four
/// characters when `pad` holds.
pub open spec fn base64_text(data: Seq<u8>, url_safe: bool, pad: bool) -> Seq<char>
    decreases data.len(),
{
    if data.len() == 0 {
        Seq::empty()
    } else if data.len() == 1 {
        let a = data[0] as int;
        seq![base64_char(a / 4, url_safe), base64_char((a % 4) * 16, url_safe)]
            + if pad { seq!['=', '='] } else { Seq::<char>::empty() }
    } else if data.len() == 2 {
        let a = data[0] as int;
        let b = data[1] as int;
        seq![
            base64_char(a / 4, url_safe),
            base64_char((a % 4) * 16 + b / 16, url_safe),
            base64_char((b % 16) * 4, url_safe),
        ] + if pad { seq!['='] } else { Seq::<char>::empty() }
    } else {
        let a = data[0] as int;
        let b = data[1] as int;
        let c = data[2] as int;
        seq![
            base64_char(a / 4, url_safe),
            base64_char((a % 4) * 16 + b / 16, url_safe),
            base64_char((b % 16) * 4 + c / 64, url_safe),
            base64_char(c % 64, url_safe),
        ] + base64_text(data.subrange(3, data.len() as int), url_safe, pad)
    }
}

proof fn lemma_url_digit(v: int)
    requires
        0 <= v < 64,
    ensures
        url_safe_base64_char(base64_char(v, true)),
{
}

/// URL-safe Base64 without padding uses only URL-safe characters, and
/// `ceil(4 n / 3)` of them for `n` bytes.
pub proof fn lemma_url_base64_text(data: Seq<u8>)
    ensures
        forall|i: int| 0 <= i < base64_text(data, true, false).len()
            ==> url_safe_base64_char(#[trigger] base64_text(data, true, false)[i]),
        base64_text(data, true, false).len() == (4 * data.len() + 2) / 3,
    decreases data.len(),
{
    let t = base64_text(data, true, false);
    if data.len() >= 1 {
        let a = data[0] as int;
        lemma_url_digit(a / 4);
        lemma_url_digit((a % 4) * 16);
        if data.len() >= 2 {
            let b = data[1] as int;
            lemma_url_digit((a % 4) * 16 + b / 16);
            lemma_url_digit((b % 16) * 4);
            if data.len() >= 3 {
                let c = data[2] as int;
                lemma_url_digit((b % 16) * 4 + c / 64);
                lemma_url_digit(c % 64);
                let rest = data.subrange(3, data.len() as int);
                lemma_url_base64_text(rest);
                assert forall|i: int| 0 <= i < t.len() implies url_safe_base64_char(#[trigger] t[i]) by {
                    if i >= 4 {
                        assert(t[i] == base64_text(rest, true, false)[i - 4]);
                    }
                }
            }
        }
    }
}

/// `base64::engine::general_purpose::URL_SAFE_NO_PAD.encode(data)`: the
/// URL-safe Base64 text of `data` without padding.  The decoder of the same
/// engine gives `data` back from it.
#[verifier::external_body]
pub(crate) fn base64_url_encode(data: &[u8]) -> (r: String)
    ensures
        r@ == base64_text(data@, true, false),
        base64_url_decoding(r@) == Some(data@),
{
    base64::engine::general_purpose::URL_SAFE_NO_PAD.encode(data)
}

/// `base64::engine::general_purpose::URL_SAFE_NO_PAD.decode(text)`, with the
/// error turned into its message.
#[verifier::external_body]
pub(crate) fn base64_url_decode(text: &str) -> (r: Result<Vec<u8>, String>)
    ensures
        match r {
            Ok(b) => base64_url_decoding(text@) == Some(b@),
            Err(m) => base64_url_decoding(text@) is None && m@ == base64_url_decode_error(text@),
        },
{
    match base64::engine::general_purpose::URL_SAFE_NO_PAD.decode(text.as_bytes()) {
        Ok(b) => Ok(b),
        Err(e) => Err(e.to_string()),
    }
}

/// `base64::engine::general_purpose::STANDARD.encode(data)`: the standard
/// Base64 text of `data`, padded with `=`.
#[verifier::external_body]
pub(crate) fn base64_std_encode(data: &[u8]) -> (r: String)
    ensures
        r@ == base64_text(data@, false, true),
{
    base64::engine::general_purpose::STANDARD.encode(data)
}

/// A gzip stream of `data` written by `flate2::write::GzEncoder` at
/// compression `level` (0 to 9).  Writing into a vector cannot fail.  The
/// gzip decoder reads the UTF-8 text back from the result when `data` is
/// UTF-8 text.
#[verifier::external_body]
pub(crate) fn gzip(data: &[u8], level: u32) -> (r: Vec<u8>)
    requires
        level <= 9,
    ensures
        r@ == gzip_of(data@, level as nat),
        vstd::utf8::valid_utf8(data@) ==> gunzip_text_of(r@) == Some(vstd::utf8::decode_utf8(data@)),
{
    let mut encoder = flate2::write::GzEncoder::new(Vec::new(), flate2::Compression::new(level));
    encoder.write_all(data).expect("writing into a vector");
    encoder.finish().expect("writing into a vector")
}

/// Reads a gzip stream of UTF-8 text with `flate2::read::GzDecoder` and
/// `read_to_string`, with the error turned into its message.
#[verifier::external_body]
pub(crate) fn gunzip_text(data: &[u8]) -> (r: Result<String, String>)
    ensures
        match r {
            Ok(t) => gunzip_text_of(data@) == Some(t@),
            Err(m) => gunzip_text_of(data@) is None && m@ == gunzip_error_of(data@),
        },
{
    let mut decoder = flate2::read::GzDecoder::new(data);
    let mut text = String::new();
    match decoder.read_to_string(&mut text) {
        Ok(_) => Ok(text),
        Err(e) => Err(e.to_string()),
    }
}

/// The date-time patterns the library formats with: all of their
/// specifiers are valid for `chrono`, so formatting them cannot fail.
pub open spec fn utc_format_supported(fmt: Seq<char>) -> bool {
    fmt == "%Y-%m-%d %H:%M"@ || fmt == "%Y-%m-%d %H:%M:%S"@
}

/// `chrono::DateTime::from_timestamp(seconds, 0)` formatted with `fmt`, or
/// `None` when `chrono` cannot represent that time.  Second `0` (the epoch)
/// is representable.  `fmt` is one of the supported patterns: `chrono`
/// reports an invalid specifier as a formatting error, on which
/// `to_string` panics.
#[verifier::external_body]
pub(crate) fn format_utc(seconds: i64, fmt: &str) -> (r: Option<String>)
    requires
        utc_format_supported(fmt@),
    ensures
        match r {
            Some(t) => utc_time_text(seconds as int, fmt@) == Some(t@),
            None => utc_time_text(seconds as int, fmt@) is None,
        },
        seconds == 0 ==> r is Some,
{
    match chrono::DateTime::from_timestamp(seconds, 0) {
        Some(t) => Some(t.format(fmt).to_string()),
        None => None,
    }
}

/// The views of `(key, value)` string pairs.
pub open spec fn pair_views(p: Seq<(String, String)>) -> Seq<(Seq<char>, Seq<char>)> {
    p.map_values(|kv: (String, String)| (kv.0@, kv.1@))
}

/// `url::Url::parse_with_params(base, params)` serialized, or the message of
/// the error of parsing `base` (the pairs themselves cannot fail).
#[verifier::external_body]
pub(crate) fn url_parse_with_params(base: &str, params: &[(String, String)]) -> (r: Result<String, String>)
    ensures
        match r {
            Ok(u) => url_with_params(base@, pair_views(params@)) == Some(u@),
            Err(m) => url_with_params(base@, pair_views(params@)) is None && m@ == url_parse_error_of(base@),
        },
{
    match url::Url::parse_with_params(base, params.iter().map(|(k, v)| (k.as_str(), v.as_str()))) {
        Ok(u) => Ok(u.to_string()),
        Err(e) => Err(e.to_string()),
    }
}

/// `url::Url::parse(url)` and its decoded query pairs, in order, or the
/// message of the parse error.
#[verifier::external_body]
pub(crate) fn url_query_pairs(url: &str) -> (r: Result<Vec<(String, String)>, String>)
    ensures
        match r {
            Ok(p) => url_query_pairs_of(url@) == Some(pair_views(p@)),
            Err(m) => url_query_pairs_of(url@) is None && m@ == url_parse_error_of(url@),
        },
{
    match url::Url::parse(url) {
        Ok(u) => Ok(u.query_pairs().map(|(k, v)| (k.into_owned(), v.into_owned())).collect()),
        Err(e) => Err(e.to_string()),
    }
}

/// 32 bytes from the thread-local random generator of `rand`.  Nothing is
/// known of their value.
#[verifier::external_body]
pub(crate) fn random_bytes_32() -> (r: [u8; 32]) {
    rand::rng().random::<[u8; 32]>()
}

/// A random `u64` from the thread-local generator of `rand`.
#[verifier::external_body]
pub(crate) fn random_u64() -> (r: u64) {
    rand::rng().random::<u64>()
}

/// A random `u32` from `rand::random`.
#[verifier::external_body]
pub(crate) fn random_u32() -> (r: u32) {
    rand::random::<u32>()
}

/// The per-user configuration directory of Kerr
/// (`directories::ProjectDirs::from("app", "freewill", "kerr")`), if the
/// platform has one.  It depends on the environment (home directory, XDG
/// variables), so which directory it is stays unsaid; the crate joins the
/// non-empty project path onto it, so a directory that is found is never
/// empty.
#[verifier::external_body]
pub(crate) fn project_config_dir() -> (r: Option<String>)
    ensures
        r matches Some(d) ==> d@.len() > 0,
{
    directories::ProjectDirs::from("app", "freewill", "kerr").map(|d| d.config_dir().to_string_lossy().into_owned())
}

/// The per-user cache directory of Kerr (see `project_config_dir`): which
/// directory it is stays unsaid, but one that is found is never empty.
#[verifier::external_body]
pub(crate) fn project_cache_dir() -> (r: Option<String>)
    ensures
        r matches Some(d) ==> d@.len() > 0,
{
    directories::ProjectDirs::from("app", "freewill", "kerr").map(|d| d.cache_dir().to_string_lossy().into_owned())
}

} // verus!
