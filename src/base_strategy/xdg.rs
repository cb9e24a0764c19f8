use vstd::prelude::*;

use super::BaseStrategy;
use crate::home_dir;
use crate::paths::is_absolute_path;
use crate::paths::join_path;
use crate::paths::path_is_absolute;
use crate::paths::path_join;
use crate::Environment;
use crate::HomeDirError;

verus! {

/// A directory of the freedesktop-style convention: the value of its variable where that is
/// set to an absolute path, else `default` under `home`. A relative value is ignored.
pub open spec fn xdg_dir(var: Option<String>, home: Seq<char>, default: Seq<char>) -> Seq<char> {
    match var {
        Some(v) => if path_is_absolute(v@) {
            v@
        } else {
            path_join(home, default)
        },
        None => path_join(home, default),
    }
}

/// This strategy implements the XDG Base Directories Specification. It is the most common on
/// Linux, but is increasingly being adopted elsewhere.
///
/// Each directory is read from its environment variable (`XDG_CONFIG_HOME`, `XDG_DATA_HOME`,
/// `XDG_CACHE_HOME`, `XDG_STATE_HOME`) when that holds an absolute path; otherwise it is
/// `.config/`, `.local/share/`, `.cache/` or `.local/state/` under the home directory.
#[derive(Debug)]
pub struct Xdg {
    home_dir: String,
}

impl Xdg {
    /// The strategy for the home directory `home`.
    pub fn from_home_dir(home: &str) -> (r: Xdg)
        ensures
            r.home_path() == home@,
    {
        Xdg { home_dir: String::from_str(home) }
    }

    fn env_var_or_default(&self, var: &Option<String>, default: &str) -> (r: String)
        ensures
            r@ == xdg_dir(*var, self.home_path(), default@),
    {
        match var {
            Some(v) => {
                if is_absolute_path(v.as_str()) {
                    v.clone()
                } else {
                    join_path(self.home_dir.as_str(), default)
                }
            },
            None => join_path(self.home_dir.as_str(), default),
        }
    }
}

impl BaseStrategy for Xdg {
    closed spec fn home_path(&self) -> Seq<char> {
        self.home_dir@
    }

    open spec fn config_path(&self, env: Environment) -> Seq<char> {
        xdg_dir(env.xdg_config_home, self.home_path(), ".config/"@)
    }

    open spec fn data_path(&self, env: Environment) -> Seq<char> {
        xdg_dir(env.xdg_data_home, self.home_path(), ".local/share/"@)
    }

    open spec fn cache_path(&self, env: Environment) -> Seq<char> {
        xdg_dir(env.xdg_cache_home, self.home_path(), ".cache/"@)
    }

    open spec fn state_path(&self, env: Environment) -> Option<Seq<char>> {
        Some(xdg_dir(env.xdg_state_home, self.home_path(), ".local/state/"@))
    }

    open spec fn runtime_path(&self, env: Environment) -> Option<Seq<char>> {
        None
    }

    fn new() -> (r: Result<Xdg, HomeDirError>) {
        let home = home_dir()?;
        Ok(Xdg { home_dir: home })
    }

    fn home_dir(&self) -> (r: &str) {
        self.home_dir.as_str()
    }

    fn config_dir(&self, env: &Environment) -> (r: String) {
        self.env_var_or_default(&env.xdg_config_home, ".config/")
    }

    fn data_dir(&self, env: &Environment) -> (r: String) {
        self.env_var_or_default(&env.xdg_data_home, ".local/share/")
    }

    fn cache_dir(&self, env: &Environment) -> (r: String) {
        self.env_var_or_default(&env.xdg_cache_home, ".cache/")
    }

    fn state_dir(&self, env: &Environment) -> (r: Option<String>) {
        Some(self.env_var_or_default(&env.xdg_state_home, ".local/state/"))
    }

    fn runtime_dir(&self, env: &Environment) -> (r: Option<String>) {
        None
    }
}

} // verus!
