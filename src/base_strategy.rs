//! These strategies provide the user's configuration, data, cache and state directories,
//! without knowing about the application specifically.

use vstd::prelude::*;

use crate::Environment;
use crate::paths::path_is_absolute;
use crate::paths::path_join;
use crate::HomeDirError;

mod apple;
mod windows;
mod xdg;

pub use apple::library_dir;
pub use apple::Apple;
pub use windows::Windows;
pub use xdg::xdg_dir;
pub use xdg::Xdg;

verus! {

/// Provides configuration, data, cache and state directories of the current user.
///
/// Each directory is stated as a spec function of the strategy and of the environment of
/// the lookup.
pub trait BaseStrategy: Sized {
    /// The home directory that the strategy resolved.
    spec fn home_path(&self) -> Seq<char>;

    /// The configuration directory in environment `env`.
    spec fn config_path(&self, env: Environment) -> Seq<char>;

    /// The data directory in environment `env`.
    spec fn data_path(&self, env: Environment) -> Seq<char>;

    /// The cache directory in environment `env`.
    spec fn cache_path(&self, env: Environment) -> Seq<char>;

    /// The state directory in environment `env`, if the convention has one.
    spec fn state_path(&self, env: Environment) -> Option<Seq<char>>;

    /// The runtime directory in environment `env`, if the convention has one.
    spec fn runtime_path(&self, env: Environment) -> Option<Seq<char>>;

    /// Base strategies are constructed without knowledge of the application. This fails only
    /// when the home directory cannot be located.
    fn new() -> (r: Result<Self, HomeDirError>);

    /// Gets the user's home directory.
    fn home_dir(&self) -> (r: &str)
        ensures
            r@ == self.home_path(),
    ;

    /// Gets the user's configuration directory.
    fn config_dir(&self, env: &Environment) -> (r: String)
        ensures
            r@ == self.config_path(*env),
    ;

    /// Gets the user's data directory.
    fn data_dir(&self, env: &Environment) -> (r: String)
        ensures
            r@ == self.data_path(*env),
    ;

    /// Gets the user's cache directory.
    fn cache_dir(&self, env: &Environment) -> (r: String)
        ensures
            r@ == self.cache_path(*env),
    ;

    /// Gets the user's state directory.
    /// The state directory may not exist for all platforms.
    fn state_dir(&self, env: &Environment) -> (r: Option<String>)
        ensures
            r matches Some(p) ==> self.state_path(*env) == Some(p@),
            r is None ==> self.state_path(*env) is None,
    ;

    /// Gets the user's runtime directory.
    /// The runtime directory may not exist for all platforms.
    fn runtime_dir(&self, env: &Environment) -> (r: Option<String>)
        ensures
            r matches Some(p) ==> self.runtime_path(*env) == Some(p@),
            r is None ==> self.runtime_path(*env) is None,
    ;
}

} // verus!

verus! {

/// A base strategy's directories are determined by the strategy and the environment: reading
/// them from equal strategies in equal environments, for instance twice in a row from one
/// strategy with no change to the environment in between, gives identical paths.
pub proof fn lemma_base_dirs_deterministic<S: BaseStrategy>(
    first: S,
    second: S,
    first_env: Environment,
    second_env: Environment,
)
    requires
        first == second,
        first_env == second_env,
    ensures
        first.config_path(first_env) == second.config_path(second_env),
        first.data_path(first_env) == second.data_path(second_env),
        first.cache_path(first_env) == second.cache_path(second_env),
        first.state_path(first_env) == second.state_path(second_env),
{
}

/// The Apple and Windows strategies read no environment variable: their directories are the
/// same in every environment.
pub proof fn lemma_fixed_conventions_ignore_environment(
    apple: Apple,
    windows: Windows,
    env: Environment,
    other: Environment,
)
    ensures
        apple.config_path(env) == apple.config_path(other),
        apple.data_path(env) == apple.data_path(other),
        apple.cache_path(env) == apple.cache_path(other),
        windows.config_path(env) == windows.config_path(other),
        windows.data_path(env) == windows.data_path(other),
        windows.cache_path(env) == windows.cache_path(other),
{
}

/// The freedesktop-style configuration directory is `.config/` under the home directory when
/// `XDG_CONFIG_HOME` is unset or holds a relative path, and the value of `XDG_CONFIG_HOME`
/// when that is an absolute path.
pub proof fn lemma_xdg_config_override(strategy: Xdg, env: Environment)
    ensures
        env.xdg_config_home is None ==> strategy.config_path(env) == path_join(
            strategy.home_path(),
            ".config/"@,
        ),
        env.xdg_config_home matches Some(p) ==> {
            if path_is_absolute(p@) {
                strategy.config_path(env) == p@
            } else {
                strategy.config_path(env) == path_join(strategy.home_path(), ".config/"@)
            }
        },
{
}

/// The Apple configuration directory is `Library/Preferences/` under the home directory, and
/// the convention has no state directory.
pub proof fn lemma_apple_layout(strategy: Apple, env: Environment)
    ensures
        strategy.config_path(env) == path_join(
            path_join(strategy.home_path(), "Library/"@),
            "Preferences/"@,
        ),
        strategy.state_path(env) is None,
{
}

/// On Windows, configuration and data share `AppData/Roaming/` under the home directory, and
/// the cache is `AppData/Local/`.
pub proof fn lemma_windows_layout(strategy: Windows, env: Environment)
    ensures
        strategy.config_path(env) == strategy.data_path(env),
        strategy.config_path(env) == path_join(strategy.home_path(), "AppData/Roaming/"@),
        strategy.cache_path(env) == path_join(strategy.home_path(), "AppData/Local/"@),
{
}

} // verus!
