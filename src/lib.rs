//! Locations of the configuration, data, cache and state directories of the current user and
//! of an application, following one of several platform conventions ("strategies").
//!
//! Paths are handled as strings. Every directory is a function of the strategy (which holds the
//! home directory it was built from) and of an [`Environment`]: the values of the `XDG_*`
//! variables at the time of the lookup, which only the freedesktop-style strategies read.

use vstd::prelude::*;

pub mod app_strategy;
pub mod base_strategy;
pub mod paths;

use crate::paths::lookup_home_dir;

verus! {

/// The values of the environment variables that a lookup may read. `None` stands for a
/// variable that is unset (or whose value is not valid Unicode).
pub struct Environment {
    /// The value of `XDG_CONFIG_HOME`.
    pub xdg_config_home: Option<String>,
    /// The value of `XDG_DATA_HOME`.
    pub xdg_data_home: Option<String>,
    /// The value of `XDG_CACHE_HOME`.
    pub xdg_cache_home: Option<String>,
    /// The value of `XDG_STATE_HOME`.
    pub xdg_state_home: Option<String>,
}

impl Environment {
    /// An environment in which none of the variables is set.
    pub fn unset() -> (r: Environment)
        ensures
            r.xdg_config_home is None,
            r.xdg_data_home is None,
            r.xdg_cache_home is None,
            r.xdg_state_home is None,
    {
        Environment { xdg_config_home: None, xdg_data_home: None, xdg_cache_home: None, xdg_state_home: None }
    }
}

/// This error occurs when the home directory cannot be located.
#[derive(Debug, Clone, Copy, PartialEq, Eq, Structural)]
pub struct HomeDirError;

impl HomeDirError {
    /// The error's description.
    pub fn message(&self) -> (r: String)
        ensures
            r@ == "could not locate home directory"@,
    {
        String::from_str("could not locate home directory")
    }
}

/// The current user's home directory, as the host reports it, or [`HomeDirError`] when it
/// cannot.
pub fn home_dir() -> (r: Result<String, HomeDirError>) {
    match lookup_home_dir() {
        Some(home) => Ok(home),
        None => Err(HomeDirError),
    }
}

} // verus!
