//! Core logic of the Kerr peer-to-peer remote access tool.
use vstd::prelude::*;

pub mod text;
pub mod numparse;
pub mod version;
pub mod ordering;
pub mod update;
pub mod paths;
pub mod stdtext;
pub mod keys;
pub mod explorer;
pub mod debug_log;
pub mod protocol;
pub mod codec;
pub mod connstr;
pub mod config;
pub mod transfer;
pub mod proxy;
pub mod relay;
pub mod server;
pub mod web;
pub mod auth;
pub mod display;
pub mod browser;
pub mod remotefs;
pub mod ios;
pub mod logging;
pub mod socks;
pub mod idtable;
pub mod dns;
pub mod updater;

verus! {

} // verus!
