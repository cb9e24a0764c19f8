use vstd::prelude::*;

use super::AppStrategy;
use super::AppStrategyArgs;
use crate::base_strategy;
use crate::base_strategy::BaseStrategy;
use crate::paths::join_path;
use crate::paths::path_join;
use crate::Environment;
use crate::HomeDirError;

verus! {

/// `{author}/{app_name}`: the path segment that names the application on Windows.
pub open spec fn author_app_name(args: AppStrategyArgs) -> Seq<char> {
    args.author@ + "/"@ + args.app_name@
}

/// A directory of the Windows strategy: `leaf` under `{author}/{app_name}` under `base`.
pub open spec fn windows_app_dir(base: Seq<char>, name: Seq<char>, leaf: Seq<char>) -> Seq<char> {
    path_join(path_join(base, name), leaf)
}

/// This strategy follows Windows' conventions: each directory of the Windows base strategy,
/// followed by `{author}/{app_name}` and by `config/`, `data/` or `cache/`. There is neither a
/// state nor a runtime directory.
#[derive(Debug, Clone, PartialEq, Eq, PartialOrd, Ord, Hash)]
pub struct Windows {
    base_strategy: base_strategy::Windows,
    author_app_name_path: String,
}

impl Windows {
    /// The base strategy whose directories this one extends.
    pub closed spec fn base(&self) -> base_strategy::Windows {
        self.base_strategy
    }

    /// The path segment that names the application.
    pub closed spec fn name(&self) -> Seq<char> {
        self.author_app_name_path@
    }

    /// The strategy for the application `args` and the home directory `home`.
    pub fn from_home_dir(args: AppStrategyArgs, home: &str) -> (r: Windows)
        ensures
            r.base().home_path() == home@,
            r.name() == author_app_name(args),
    {
        Windows {
            base_strategy: base_strategy::Windows::from_home_dir(home),
            author_app_name_path: Self::author_app_name_path(&args),
        }
    }

    fn author_app_name_path(args: &AppStrategyArgs) -> (r: String)
        ensures
            r@ == author_app_name(*args),
    {
        let mut path = args.author.clone();
        path.append("/");
        path.append(args.app_name.as_str());
        path
    }

    /// Gets the user's home directory.
    pub fn home_dir(&self) -> (r: &str)
        ensures
            r@ == self.base().home_path(),
    {
        self.base_strategy.home_dir()
    }

    fn app_dir(&self, base: String, leaf: &str) -> (r: String)
        ensures
            r@ == windows_app_dir(base@, self.name(), leaf@),
    {
        let path = join_path(base.as_str(), self.author_app_name_path.as_str());
        join_path(path.as_str(), leaf)
    }
}

impl AppStrategy for Windows {
    open spec fn config_path(&self, env: Environment) -> Seq<char> {
        windows_app_dir(self.base().config_path(env), self.name(), "config/"@)
    }

    open spec fn data_path(&self, env: Environment) -> Seq<char> {
        windows_app_dir(self.base().data_path(env), self.name(), "data/"@)
    }

    open spec fn cache_path(&self, env: Environment) -> Seq<char> {
        windows_app_dir(self.base().cache_path(env), self.name(), "cache/"@)
    }

    open spec fn state_path(&self, env: Environment) -> Option<Seq<char>> {
        None
    }

    open spec fn runtime_path(&self, env: Environment) -> Option<Seq<char>> {
        None
    }

    fn new(args: AppStrategyArgs) -> (r: Result<Windows, HomeDirError>)
        ensures
            r matches Ok(s) ==> s.name() == author_app_name(args),
    {
        let base_strategy = base_strategy::Windows::new()?;
        Ok(Windows { base_strategy, author_app_name_path: Self::author_app_name_path(&args) })
    }

    fn config_dir(&self, env: &Environment) -> (r: String) {
        self.app_dir(self.base_strategy.config_dir(env), "config/")
    }

    fn data_dir(&self, env: &Environment) -> (r: String) {
        self.app_dir(self.base_strategy.data_dir(env), "data/")
    }

    fn cache_dir(&self, env: &Environment) -> (r: String) {
        self.app_dir(self.base_strategy.cache_dir(env), "cache/")
    }

    fn state_dir(&self, env: &Environment) -> (r: Option<String>) {
        None
    }

    fn runtime_dir(&self, env: &Environment) -> (r: Option<String>) {
        None
    }
}

} // verus!
