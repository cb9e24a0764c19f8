use vstd::prelude::*;

use super::AppStrategy;
use super::AppStrategyArgs;
use crate::base_strategy;
use crate::base_strategy::BaseStrategy;
use crate::paths::join_path;
use crate::paths::path_join;
use crate::Environment;
use crate::HomeDirError;

verus! {

/// This is the strategy created by Apple for use on macOS and iOS devices: each directory of
/// the Apple base strategy, followed by the application's bundle identifier. There is neither
/// a state nor a runtime directory.
#[derive(Debug)]
pub struct Apple {
    base_strategy: base_strategy::Apple,
    bundle_id: String,
}

impl Apple {
    /// The base strategy whose directories this one extends.
    pub closed spec fn base(&self) -> base_strategy::Apple {
        self.base_strategy
    }

    /// The path segment that names the application.
    pub closed spec fn name(&self) -> Seq<char> {
        self.bundle_id@
    }

    /// The strategy for the application `args` and the home directory `home`.
    pub fn from_home_dir(args: AppStrategyArgs, home: &str) -> (r: Apple)
        ensures
            r.base().home_path() == home@,
            r.name() == args.bundle_id_spec(),
    {
        Apple { base_strategy: base_strategy::Apple::from_home_dir(home), bundle_id: args.bundle_id() }
    }
}

impl AppStrategy for Apple {
    open spec fn config_path(&self, env: Environment) -> Seq<char> {
        path_join(self.base().config_path(env), self.name())
    }

    open spec fn data_path(&self, env: Environment) -> Seq<char> {
        path_join(self.base().data_path(env), self.name())
    }

    open spec fn cache_path(&self, env: Environment) -> Seq<char> {
        path_join(self.base().cache_path(env), self.name())
    }

    open spec fn state_path(&self, env: Environment) -> Option<Seq<char>> {
        None
    }

    open spec fn runtime_path(&self, env: Environment) -> Option<Seq<char>> {
        None
    }

    fn new(args: AppStrategyArgs) -> (r: Result<Apple, HomeDirError>)
        ensures
            r matches Ok(s) ==> s.name() == args.bundle_id_spec(),
    {
        let base_strategy = base_strategy::Apple::new()?;
        Ok(Apple { base_strategy, bundle_id: args.bundle_id() })
    }

    fn config_dir(&self, env: &Environment) -> (r: String) {
        let base = self.base_strategy.config_dir(env);
        join_path(base.as_str(), self.bundle_id.as_str())
    }

    fn data_dir(&self, env: &Environment) -> (r: String) {
        let base = self.base_strategy.data_dir(env);
        join_path(base.as_str(), self.bundle_id.as_str())
    }

    fn cache_dir(&self, env: &Environment) -> (r: String) {
        let base = self.base_strategy.cache_dir(env);
        join_path(base.as_str(), self.bundle_id.as_str())
    }

    fn state_dir(&self, env: &Environment) -> (r: Option<String>) {
        None
    }

    fn runtime_dir(&self, env: &Environment) -> (r: Option<String>) {
        None
    }
}

} // verus!
