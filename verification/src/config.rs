//! Server configuration and the locations of Kerr's files.
use vstd::prelude::*;
use crate::codec::{blake3_hex, blake3_hex_of, project_config_dir, project_cache_dir};
use crate::paths::{join, join_of};
use crate::text::{chars_of, chars_eq};

verus! {

/// Configuration of the server's auto-update.
#[derive(Clone, Debug)]
pub struct ServerConfig {
    /// Base URL of the backend server (e.g. `https://example.com`).
    pub server_url: String,
    /// The admin password; updates are authorized by its BLAKE3 hash.
    pub admin_password: String,
}

/// Why a location could not be determined.
#[derive(Debug, PartialEq, Eq, Structural)]
pub enum ConfigError {
    /// The platform has no configuration directory for the user.
    NoConfigDir,
    /// The platform has no cache directory for the user.
    NoCacheDir,
}

/// The admin hash of a password: the hex BLAKE3 hash of its UTF-8 bytes.
pub open spec fn admin_hash_text(password: Seq<char>) -> Seq<char> {
    blake3_hex_of(vstd::utf8::encode_utf8(password))
}

impl ServerConfig {
    /// The hex BLAKE3 hash of the admin password.
    pub fn get_admin_hash(&self) -> (h: String)
        ensures
            h@ == admin_hash_text(self.admin_password@),
    {
        blake3_hex(self.admin_password.as_str().as_bytes())
    }

    /// Whether `provided_hash` is the hex BLAKE3 hash of the admin password.
    pub fn verify_admin_hash(&self, provided_hash: &str) -> (ok: bool)
        ensures
            ok == (admin_hash_text(self.admin_password@) == provided_hash@),
    {
        let h = self.get_admin_hash();
        let a = chars_of(h.as_str());
        let b = chars_of(provided_hash);
        chars_eq(a.as_slice(), b.as_slice())
    }
}

/// The configuration directory given what the platform lookup `found`:
/// the directory itself, or `NoConfigDir` where there is none.
pub fn config_dir_from(found: Option<String>) -> (r: Result<String, ConfigError>)
    ensures
        match found {
            Some(d) => r == Ok::<String, ConfigError>(d),
            None => r == Err::<String, ConfigError>(ConfigError::NoConfigDir),
        },
{
    match found {
        Some(d) => Ok(d),
        None => Err(ConfigError::NoConfigDir),
    }
}

/// The cache directory given what the platform lookup `found`: the
/// directory itself, or `NoCacheDir` where there is none.
pub fn cache_dir_from(found: Option<String>) -> (r: Result<String, ConfigError>)
    ensures
        match found {
            Some(d) => r == Ok::<String, ConfigError>(d),
            None => r == Err::<String, ConfigError>(ConfigError::NoCacheDir),
        },
{
    match found {
        Some(d) => Ok(d),
        None => Err(ConfigError::NoCacheDir),
    }
}

/// The per-user configuration directory of Kerr: a non-empty path, or
/// `NoConfigDir` where the platform has none.
pub fn get_config_dir() -> (r: Result<String, ConfigError>)
    ensures
        match r {
            Ok(d) => d@.len() > 0,
            Err(e) => e == ConfigError::NoConfigDir,
        },
{
    config_dir_from(project_config_dir())
}

/// The per-user cache directory of Kerr: a non-empty path, or `NoCacheDir`
/// where the platform has none.
pub fn get_cache_dir() -> (r: Result<String, ConfigError>)
    ensures
        match r {
            Ok(d) => d@.len() > 0,
            Err(e) => e == ConfigError::NoCacheDir,
        },
{
    cache_dir_from(project_cache_dir())
}

/// The configuration file inside configuration directory `dir`.
pub fn config_file_in(dir: &str) -> (p: String)
    ensures
        p@ == join_of(dir@, "config.json"@),
{
    join(dir, "config.json")
}

/// The path of the configuration file: `config.json` in the configuration
/// directory.
pub fn get_config_file_path() -> (r: Result<String, ConfigError>)
    ensures
        match r {
            Ok(p) => exists|d: Seq<char>| d.len() > 0 && p@ == join_of(d, "config.json"@),
            Err(e) => e == ConfigError::NoConfigDir,
        },
{
    match get_config_dir() {
        Ok(dir) => Ok(config_file_in(dir.as_str())),
        Err(e) => Err(e),
    }
}

/// The path of the single-instance lock file: `kerr.lock` in the cache
/// directory.
pub fn get_lock_file_path() -> (r: Result<String, ConfigError>)
    ensures
        match r {
            Ok(p) => exists|d: Seq<char>| d.len() > 0 && p@ == join_of(d, "kerr.lock"@),
            Err(e) => e == ConfigError::NoCacheDir,
        },
{
    match get_cache_dir() {
        Ok(dir) => Ok(join(dir.as_str(), "kerr.lock")),
        Err(e) => Err(e),
    }
}

/// The directory where updates are downloaded: `updates` in the cache
/// directory.
pub fn get_download_cache_dir() -> (r: Result<String, ConfigError>)
    ensures
        match r {
            Ok(p) => exists|d: Seq<char>| d.len() > 0 && p@ == join_of(d, "updates"@),
            Err(e) => e == ConfigError::NoCacheDir,
        },
{
    match get_cache_dir() {
        Ok(dir) => Ok(join(dir.as_str(), "updates")),
        Err(e) => Err(e),
    }
}

/// The file where a login session is kept: `session.json` in the
/// configuration directory.
pub fn session_file_in(dir: &str) -> (p: String)
    ensures
        p@ == join_of(dir@, "session.json"@),
{
    join(dir, "session.json")
}

} // verus!
