use vstd::prelude::*;

use super::AppStrategy;
use super::AppStrategyArgs;
use crate::home_dir;
use crate::paths::join_path;
use crate::paths::path_join;
use crate::Environment;
use crate::HomeDirError;

verus! {

/// The root of the Unix strategy: a hidden directory named after the application, in `home`.
pub open spec fn unix_root(home: Seq<char>, args: AppStrategyArgs) -> Seq<char> {
    path_join(home, "."@ + args.unixy_name_spec())
}

/// This strategy has no standard or official specification. It has arisen over time through
/// hundreds of Unixy tools: everything lives under one hidden directory in the home directory,
/// `~/.{unixy name}/`, which is the configuration directory itself and holds `data/`, `cache/`
/// and `state/`. No environment variable is read.
#[derive(Debug)]
pub struct Unix {
    root_dir: String,
}

impl Unix {
    /// The hidden directory under which all the application's directories lie.
    pub closed spec fn root(&self) -> Seq<char> {
        self.root_dir@
    }

    /// The strategy for the application `args` and the home directory `home`.
    pub fn from_home_dir(args: AppStrategyArgs, home: &str) -> (r: Unix)
        ensures
            r.root() == unix_root(home@, args),
    {
        Unix { root_dir: Self::root_in(&args, home) }
    }

    fn root_in(args: &AppStrategyArgs, home: &str) -> (r: String)
        ensures
            r@ == unix_root(home@, *args),
    {
        let mut dot_name = String::from_str(".");
        let name = args.unixy_name();
        dot_name.append(name.as_str());
        join_path(home, dot_name.as_str())
    }
}

impl AppStrategy for Unix {
    open spec fn config_path(&self, env: Environment) -> Seq<char> {
        self.root()
    }

    open spec fn data_path(&self, env: Environment) -> Seq<char> {
        path_join(self.root(), "data/"@)
    }

    open spec fn cache_path(&self, env: Environment) -> Seq<char> {
        path_join(self.root(), "cache/"@)
    }

    open spec fn state_path(&self, env: Environment) -> Option<Seq<char>> {
        Some(path_join(self.root(), "state/"@))
    }

    open spec fn runtime_path(&self, env: Environment) -> Option<Seq<char>> {
        None
    }

    fn new(args: AppStrategyArgs) -> (r: Result<Unix, HomeDirError>)
        ensures
            r matches Ok(s) ==> exists|home: Seq<char>| s.root() == unix_root(home, args),
    {
        let home = home_dir()?;
        let root_dir = Self::root_in(&args, home.as_str());
        assert(root_dir@ == unix_root(home@, args));
        Ok(Unix { root_dir })
    }

    fn config_dir(&self, env: &Environment) -> (r: String) {
        self.root_dir.clone()
    }

    fn data_dir(&self, env: &Environment) -> (r: String) {
        join_path(self.root_dir.as_str(), "data/")
    }

    fn cache_dir(&self, env: &Environment) -> (r: String) {
        join_path(self.root_dir.as_str(), "cache/")
    }

    fn state_dir(&self, env: &Environment) -> (r: Option<String>) {
        Some(join_path(self.root_dir.as_str(), "state/"))
    }

    fn runtime_dir(&self, env: &Environment) -> (r: Option<String>) {
        None
    }
}

} // verus!
