use vstd::prelude::*;

use super::BaseStrategy;
use crate::home_dir;
use crate::paths::join_path;
use crate::paths::path_join;
use crate::Environment;
use crate::HomeDirError;

verus! {

/// The directory `leaf` under `Library/` in the home directory `home`.
pub open spec fn library_dir(home: Seq<char>, leaf: Seq<char>) -> Seq<char> {
    path_join(path_join(home, "Library/"@), leaf)
}

/// This is the strategy created by Apple for use on macOS and iOS devices.
///
/// All directories are fixed subdirectories of `~/Library/`: `Preferences/` for configuration,
/// `Application Support/` for data and `Caches/` for the cache. No environment variable is
/// read, and there is neither a state nor a runtime directory.
#[derive(Debug)]
pub struct Apple {
    home_dir: String,
}

impl Apple {
    /// The strategy for the home directory `home`.
    pub fn from_home_dir(home: &str) -> (r: Apple)
        ensures
            r.home_path() == home@,
    {
        Apple { home_dir: String::from_str(home) }
    }

    fn library_dir(&self, leaf: &str) -> (r: String)
        ensures
            r@ == library_dir(self.home_path(), leaf@),
    {
        let library = join_path(self.home_dir.as_str(), "Library/");
        join_path(library.as_str(), leaf)
    }
}

impl BaseStrategy for Apple {
    closed spec fn home_path(&self) -> Seq<char> {
        self.home_dir@
    }

    open spec fn config_path(&self, env: Environment) -> Seq<char> {
        library_dir(self.home_path(), "Preferences/"@)
    }

    open spec fn data_path(&self, env: Environment) -> Seq<char> {
        library_dir(self.home_path(), "Application Support/"@)
    }

    open spec fn cache_path(&self, env: Environment) -> Seq<char> {
        library_dir(self.home_path(), "Caches/"@)
    }

    open spec fn state_path(&self, env: Environment) -> Option<Seq<char>> {
        None
    }

    open spec fn runtime_path(&self, env: Environment) -> Option<Seq<char>> {
        None
    }

    fn new() -> (r: Result<Apple, HomeDirError>) {
        let home = home_dir()?;
        Ok(Apple { home_dir: home })
    }

    fn home_dir(&self) -> (r: &str) {
        self.home_dir.as_str()
    }

    fn config_dir(&self, env: &Environment) -> (r: String) {
        self.library_dir("Preferences/")
    }

    fn data_dir(&self, env: &Environment) -> (r: String) {
        self.library_dir("Application Support/")
    }

    fn cache_dir(&self, env: &Environment) -> (r: String) {
        self.library_dir("Caches/")
    }

    fn state_dir(&self, env: &Environment) -> (r: Option<String>) {
        None
    }

    fn runtime_dir(&self, env: &Environment) -> (r: Option<String>) {
        None
    }
}

} // verus!
