//! The request logic, configuration access and task caching rules of a small
//! task-list web application.

pub mod cache;
pub mod controllers;
pub mod models;
pub mod repository;
pub mod services;
pub mod utils;

use vstd::prelude::*;
use crate::utils::config::Config;

verus! {

/// The port the server listens on: the `web.listen.port` setting, which must
/// be present, cut to 16 bits as `as u16` does.
pub fn listen_port(config: &Config) -> (p: u16)
    requires
        config.integers().contains_key("web.listen.port"@),
    ensures
        p == config.integers()["web.listen.port"@] as u16,
{
    let port = config.get_i32("web.listen.port");
    port as u16
}

} // verus!
