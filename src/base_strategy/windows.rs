use vstd::prelude::*;

use super::BaseStrategy;
use crate::home_dir;
use crate::paths::join_path;
use crate::paths::path_join;
use crate::Environment;
use crate::HomeDirError;

verus! {

/// This strategy follows Windows' conventions.
///
/// Configuration and data share `~/AppData/Roaming/`; the cache is `~/AppData/Local/`. No
/// environment variable is read, and there is neither a state nor a runtime directory.
#[derive(Debug, Clone, PartialEq, Eq, PartialOrd, Ord, Hash)]
pub struct Windows {
    home_dir: String,
}

impl Windows {
    /// The strategy for the home directory `home`.
    pub fn from_home_dir(home: &str) -> (r: Windows)
        ensures
            r.home_path() == home@,
    {
        Windows { home_dir: String::from_str(home) }
    }
}

impl BaseStrategy for Windows {
    closed spec fn home_path(&self) -> Seq<char> {
        self.home_dir@
    }

    open spec fn config_path(&self, env: Environment) -> Seq<char> {
        path_join(self.home_path(), "AppData/Roaming/"@)
    }

    open spec fn data_path(&self, env: Environment) -> Seq<char> {
        path_join(self.home_path(), "AppData/Roaming/"@)
    }

    open spec fn cache_path(&self, env: Environment) -> Seq<char> {
        path_join(self.home_path(), "AppData/Local/"@)
    }

    open spec fn state_path(&self, env: Environment) -> Option<Seq<char>> {
        None
    }

    open spec fn runtime_path(&self, env: Environment) -> Option<Seq<char>> {
        None
    }

    fn new() -> (r: Result<Windows, HomeDirError>) {
        let home = home_dir()?;
        Ok(Windows { home_dir: home })
    }

    fn home_dir(&self) -> (r: &str) {
        self.home_dir.as_str()
    }

    fn config_dir(&self, env: &Environment) -> (r: String) {
        join_path(self.home_dir.as_str(), "AppData/Roaming/")
    }

    fn data_dir(&self, env: &Environment) -> (r: String) {
        join_path(self.home_dir.as_str(), "AppData/Roaming/")
    }

    fn cache_dir(&self, env: &Environment) -> (r: String) {
        join_path(self.home_dir.as_str(), "AppData/Local/")
    }

    fn state_dir(&self, env: &Environment) -> (r: Option<String>) {
        None
    }

    fn runtime_dir(&self, env: &Environment) -> (r: Option<String>) {
        None
    }
}

} // verus!
