//! Logging in with Google (OAuth2) and the records of the backend server:
//! the login's state token and authorization URL, the reading of the
//! callback URL, and how a registered connection is shown.
use vstd::prelude::*;
use crate::codec::{base64_url_decoding, base64_url_encode, base64_text, lemma_url_base64_text, url_safe_base64_char, random_bytes_32, pair_views,
    url_with_params, url_parse_with_params, url_query_pairs_of, url_parse_error_of, url_query_pairs,
    utc_time_text, format_utc};
use crate::text::{chars_of, chars_eq, concat2, concat3, concat5, u64_to_string, dec};

verus! {

/// The OAuth2 client id of Kerr.
pub const CLIENT_ID: &'static str = "402230363945-pmkrgrkkashlcdkf8oso0pptneioqn2o.apps.googleusercontent.com";

/// The OAuth2 scopes Kerr asks for.
pub const OAUTH_SCOPES: &'static str = "email profile";

/// Google's OAuth2 authorization endpoint.
pub const GOOGLE_AUTH_URL: &'static str = "https://accounts.google.com/o/oauth2/v2/auth";

/// The local port of the OAuth2 redirect.
pub const REDIRECT_PORT: u16 = 8585;

/// Base URL of the backend server.
pub const BASE_URL: &'static str = "https://0hepe5jz44.execute-api.us-west-2.amazonaws.com/default";

/// The answer of the backend to a login.
#[derive(Debug)]
pub struct LoginResponse {
    pub session_id: String,
    pub is_new_registration: bool,
}

/// The answer of the backend to the registration of a connection.
#[derive(Debug)]
pub struct RegisterConnectionResponse {
    pub connection_string: String,
    pub registered_at: u64,
    pub alias: Option<String>,
    pub host_name: String,
}

/// A connection registered with the backend.
#[derive(Debug)]
pub struct Connection {
    pub connection_string: String,
    pub registered_at: u64,
    pub alias: Option<String>,
    pub host_name: String,
}

/// The connections of the logged-in user.
#[derive(Debug)]
pub struct ConnectionsListResponse {
    pub connections: Vec<Connection>,
    pub count: usize,
}

/// The answer of the backend to a logout.
#[derive(Debug)]
pub struct LogoutResponse {
    pub message: String,
    pub session_id: String,
}

/// The request that trades an authorization code for a session.
#[derive(Debug)]
pub struct LoginWithCodeRequest {
    pub code: String,
    pub redirect_uri: String,
    pub login_from: String,
}

/// The request that registers a connection.
#[derive(Debug)]
pub struct RegisterConnectionRequest {
    pub connection_string: String,
    pub alias: Option<String>,
    pub host_name: String,
}

/// The request that removes a registered connection.
#[derive(Debug)]
pub struct DeleteConnectionRequest {
    pub alias: String,
}

/// Why a login step failed.
#[derive(Debug)]
pub enum AuthError {
    /// The authorization endpoint's URL did not parse; the parser's message.
    AuthUrl(String),
    /// The callback URL did not parse; the parser's message.
    CallbackUrl(String),
    /// The provider reported an error.
    OAuth(String),
    /// The callback's state is not the one sent.
    StateMismatch { expected: String, got: String },
    /// The callback carries no authorization code.
    NoCode,
}

/// The text of an authentication error.
pub open spec fn auth_error_text(e: AuthError) -> Seq<char> {
    match e {
        AuthError::AuthUrl(m) => "Failed to parse auth URL: "@ + m@,
        AuthError::CallbackUrl(m) => "Failed to parse callback URL: "@ + m@,
        AuthError::OAuth(m) => "OAuth error: "@ + m@,
        AuthError::StateMismatch { expected, got } =>
            "State mismatch: expected '"@ + expected@ + "', got '"@ + got@ + "'"@,
        AuthError::NoCode => "No authorization code in callback URL"@,
    }
}

impl AuthError {
    /// The text of the error.
    pub fn message(&self) -> (r: String)
        ensures
            r@ == auth_error_text(*self),
    {
        match self {
            AuthError::AuthUrl(m) => concat2("Failed to parse auth URL: ", m.as_str()),
            AuthError::CallbackUrl(m) => concat2("Failed to parse callback URL: ", m.as_str()),
            AuthError::OAuth(m) => concat2("OAuth error: ", m.as_str()),
            AuthError::StateMismatch { expected, got } => {
                concat5("State mismatch: expected '", expected.as_str(), "', got '", got.as_str(), "'")
            },
            AuthError::NoCode => "No authorization code in callback URL".to_owned(),
        }
    }
}

/// The redirect URI of the login: the local port Kerr names.
pub open spec fn redirect_uri_text() -> Seq<char> {
    "http://127.0.0.1:"@ + dec(REDIRECT_PORT as nat)
}

/// The redirect URI of the login.
pub fn redirect_uri() -> (r: String)
    ensures
        r@ == redirect_uri_text(),
{
    let port = u64_to_string(REDIRECT_PORT as u64);
    concat2("http://127.0.0.1:", port.as_str())
}

/// A fresh state token: 32 random bytes in URL-safe Base64 without
/// padding (43 characters), which decodes back to those 32 bytes.
pub fn generate_state_token() -> (t: String)
    ensures
        exists|b: Seq<u8>| b.len() == 32 && t@ == base64_text(b, true, false) && base64_url_decoding(t@) == Some(b),
        t@.len() == 43,
        forall|i: int| 0 <= i < t@.len() ==> url_safe_base64_char(#[trigger] t@[i]),
{
    let bytes = random_bytes_32();
    proof {
        lemma_url_base64_text(bytes@);
    }
    base64_url_encode(&bytes)
}

/// The query of the authorization URL: client, redirect, response type,
/// scopes and state, in this order.
pub open spec fn auth_params(state: Seq<char>) -> Seq<(Seq<char>, Seq<char>)> {
    seq![
        ("client_id"@, CLIENT_ID@),
        ("redirect_uri"@, redirect_uri_text()),
        ("response_type"@, "code"@),
        ("scope"@, OAUTH_SCOPES@),
        ("state"@, state),
    ]
}

/// Google's authorization URL for a login with this state token.
pub fn build_auth_url(state: &str) -> (r: Result<String, AuthError>)
    ensures
        match r {
            Ok(u) => url_with_params(GOOGLE_AUTH_URL@, auth_params(state@)) == Some(u@),
            Err(e) => {
                &&& url_with_params(GOOGLE_AUTH_URL@, auth_params(state@)) is None
                &&& e matches AuthError::AuthUrl(m) && m@ == url_parse_error_of(GOOGLE_AUTH_URL@)
            },
        },
{
    let mut params: Vec<(String, String)> = Vec::new();
    params.push(("client_id".to_owned(), CLIENT_ID.to_owned()));
    params.push(("redirect_uri".to_owned(), redirect_uri()));
    params.push(("response_type".to_owned(), "code".to_owned()));
    params.push(("scope".to_owned(), OAUTH_SCOPES.to_owned()));
    params.push(("state".to_owned(), state.to_owned()));
    assert(pair_views(params@) =~= auth_params(state@));
    match url_parse_with_params(GOOGLE_AUTH_URL, params.as_slice()) {
        Ok(u) => Ok(u),
        Err(m) => Err(AuthError::AuthUrl(m)),
    }
}

/// The value of the last pair with this key.
pub open spec fn last_value(pairs: Seq<(Seq<char>, Seq<char>)>, key: Seq<char>) -> Option<Seq<char>>
    decreases pairs.len(),
{
    if pairs.len() == 0 {
        None
    } else if pairs.last().0 == key {
        Some(pairs.last().1)
    } else {
        last_value(pairs.drop_last(), key)
    }
}

/// What the query pairs of a callback say: an error when the provider
/// reported one; else a state mismatch when the state (empty if absent)
/// is not the expected one; else the authorization code, if there is one.
/// Where a key repeats, its last value counts.
pub open spec fn callback_result_ok(pairs: Seq<(Seq<char>, Seq<char>)>, expected: Seq<char>, r: Result<String, AuthError>) -> bool {
    let got = match last_value(pairs, "state"@) {
        Some(s) => s,
        None => Seq::<char>::empty(),
    };
    match last_value(pairs, "error"@) {
        Some(err) => r matches Err(AuthError::OAuth(m)) && m@ == err,
        None => if got != expected {
            r matches Err(AuthError::StateMismatch { expected: x, got: g }) && x@ == expected && g@ == got
        } else {
            match last_value(pairs, "code"@) {
                Some(c) => r matches Ok(code) && code@ == c,
                None => r matches Err(AuthError::NoCode),
            }
        },
    }
}

/// The value of the last pair with key `key`.
fn find_last(pairs: &[(String, String)], key: &str) -> (r: Option<String>)
    ensures
        match r {
            Some(v) => last_value(pair_views(pairs@), key@) == Some(v@),
            None => last_value(pair_views(pairs@), key@) is None,
        },
{
    let k = chars_of(key);
    let mut i: usize = pairs.len();
    assert(pair_views(pairs@).subrange(0, i as int) =~= pair_views(pairs@));
    while i > 0
        invariant
            i <= pairs.len(),
            k@ == key@,
            last_value(pair_views(pairs@), key@) == last_value(pair_views(pairs@).subrange(0, i as int), key@),
        decreases i,
    {
        let ghost sub = pair_views(pairs@).subrange(0, i as int);
        assert(sub.drop_last() =~= pair_views(pairs@).subrange(0, i - 1));
        assert(sub.last() == (pairs@[i - 1].0@, pairs@[i - 1].1@));
        let c = chars_of(pairs[i - 1].0.as_str());
        if chars_eq(c.as_slice(), k.as_slice()) {
            return Some(pairs[i - 1].1.clone());
        }
        i = i - 1;
    }
    None
}

/// Reads the query pairs of a callback.
pub fn callback_code(pairs: &[(String, String)], expected_state: &str) -> (r: Result<String, AuthError>)
    ensures
        callback_result_ok(pair_views(pairs@), expected_state@, r),
{
    let code = find_last(pairs, "code");
    let state = find_last(pairs, "state");
    let error = find_last(pairs, "error");
    if let Some(err) = error {
        return Err(AuthError::OAuth(err));
    }
    let got = match state {
        Some(s) => s,
        None => String::new(),
    };
    let a = chars_of(got.as_str());
    let b = chars_of(expected_state);
    if !chars_eq(a.as_slice(), b.as_slice()) {
        return Err(AuthError::StateMismatch { expected: expected_state.to_owned(), got });
    }
    match code {
        Some(c) => Ok(c),
        None => Err(AuthError::NoCode),
    }
}

/// The authorization code of the callback URL the user pasted, checked
/// against the state token that was sent.
pub fn parse_callback_url(url: &str, expected_state: &str) -> (r: Result<String, AuthError>)
    ensures
        match url_query_pairs_of(url@) {
            None => r matches Err(AuthError::CallbackUrl(m)) && m@ == url_parse_error_of(url@),
            Some(pairs) => callback_result_ok(pairs, expected_state@, r),
        },
{
    match url_query_pairs(url) {
        Err(m) => Err(AuthError::CallbackUrl(m)),
        Ok(pairs) => callback_code(pairs.as_slice(), expected_state),
    }
}

/// The request that trades an authorization code for a session, sent from
/// the terminal.
pub fn login_request(code: String, redirect_uri: String) -> (r: LoginWithCodeRequest)
    ensures
        r.code@ == code@,
        r.redirect_uri@ == redirect_uri@,
        r.login_from@ == "terminal"@,
{
    LoginWithCodeRequest { code, redirect_uri, login_from: "terminal".to_owned() }
}

/// The URL of an endpoint of the backend.
pub fn backend_url(endpoint: &str) -> (r: String)
    ensures
        r@ == BASE_URL@ + "/"@ + endpoint@,
{
    concat3(BASE_URL, "/", endpoint)
}

/// The registration time of a connection as shown in lists, in UTC.
pub open spec fn registered_text(registered_at: u64) -> Seq<char> {
    match utc_time_text((registered_at as i64) as int, "%Y-%m-%d %H:%M"@) {
        Some(t) => t,
        None => "unknown"@,
    }
}

/// How a registered connection is listed: its alias (or `(no alias)`), its
/// host and when it was registered.
pub open spec fn connection_text(c: Connection) -> Seq<char> {
    let alias = match c.alias {
        Some(a) => a@,
        None => "(no alias)"@,
    };
    alias + " @ "@ + c.host_name@ + " - registered: "@ + registered_text(c.registered_at)
}

impl Connection {
    /// How the connection is listed.
    pub fn display_text(&self) -> (r: String)
        ensures
            r@ == connection_text(*self),
    {
        let alias = match &self.alias {
            Some(a) => a.clone(),
            None => "(no alias)".to_owned(),
        };
        let seconds: i64 = self.registered_at as i64;
        let when = match format_utc(seconds, "%Y-%m-%d %H:%M") {
            Some(t) => t,
            None => "unknown".to_owned(),
        };
        let head = concat3(alias.as_str(), " @ ", self.host_name.as_str());
        concat3(head.as_str(), " - registered: ", when.as_str())
    }
}

} // verus!
