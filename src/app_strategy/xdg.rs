use vstd::prelude::*;

use super::AppStrategy;
use super::AppStrategyArgs;
use crate::base_strategy;
use crate::base_strategy::BaseStrategy;
use crate::paths::join_path;
use crate::paths::path_join;
use crate::Environment;
use crate::HomeDirError;

verus! {

/// This strategy implements the XDG Base Directories Specification for an application: each
/// directory of the freedesktop-style base strategy, followed by the application's 'unixy'
/// name.
#[derive(Debug)]
pub struct Xdg {
    base_strategy: base_strategy::Xdg,
    unixy_name: String,
}

impl Xdg {
    /// The base strategy whose directories this one extends.
    pub closed spec fn base(&self) -> base_strategy::Xdg {
        self.base_strategy
    }

    /// The path segment that names the application.
    pub closed spec fn name(&self) -> Seq<char> {
        self.unixy_name@
    }

    /// The strategy for the application `args` and the home directory `home`.
    pub fn from_home_dir(args: AppStrategyArgs, home: &str) -> (r: Xdg)
        ensures
            r.base().home_path() == home@,
            r.name() == args.unixy_name_spec(),
    {
        Xdg { base_strategy: base_strategy::Xdg::from_home_dir(home), unixy_name: args.unixy_name() }
    }
}

impl AppStrategy for Xdg {
    open spec fn config_path(&self, env: Environment) -> Seq<char> {
        path_join(self.base().config_path(env), self.name())
    }

    open spec fn data_path(&self, env: Environment) -> Seq<char> {
        path_join(self.base().data_path(env), self.name())
    }

    open spec fn cache_path(&self, env: Environment) -> Seq<char> {
        path_join(self.base().cache_path(env), self.name())
    }

    open spec fn state_path(&self, env: Environment) -> Option<Seq<char>> {
        Some(path_join(self.base().state_path(env)->Some_0, self.name()))
    }

    open spec fn runtime_path(&self, env: Environment) -> Option<Seq<char>> {
        None
    }

    fn new(args: AppStrategyArgs) -> (r: Result<Xdg, HomeDirError>)
        ensures
            r matches Ok(s) ==> s.name() == args.unixy_name_spec(),
    {
        let base_strategy = base_strategy::Xdg::new()?;
        Ok(Xdg { base_strategy, unixy_name: args.unixy_name() })
    }

    fn config_dir(&self, env: &Environment) -> (r: String) {
        let base = self.base_strategy.config_dir(env);
        join_path(base.as_str(), self.unixy_name.as_str())
    }

    fn data_dir(&self, env: &Environment) -> (r: String) {
        let base = self.base_strategy.data_dir(env);
        join_path(base.as_str(), self.unixy_name.as_str())
    }

    fn cache_dir(&self, env: &Environment) -> (r: String) {
        let base = self.base_strategy.cache_dir(env);
        join_path(base.as_str(), self.unixy_name.as_str())
    }

    fn state_dir(&self, env: &Environment) -> (r: Option<String>) {
        let base = self.base_strategy.state_dir(env).unwrap();
        Some(join_path(base.as_str(), self.unixy_name.as_str()))
    }

    fn runtime_dir(&self, env: &Environment) -> (r: Option<String>) {
        None
    }
}

} // verus!
