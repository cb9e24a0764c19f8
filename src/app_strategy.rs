//! These strategies require some information on the application, and in turn locate the
//! configuration, data, cache and state directories specifically for it.

use vstd::prelude::*;

use crate::base_strategy::BaseStrategy;
use crate::paths::join_path;
use crate::paths::lowercase_of;
use crate::paths::path_is_absolute;
use crate::paths::path_join;
use crate::paths::to_lowercase;
use crate::Environment;
use crate::HomeDirError;

mod apple;
mod unix;
mod windows;
mod xdg;

pub use apple::Apple;
pub use unix::unix_root;
pub use unix::Unix;
pub use windows::author_app_name;
pub use windows::windows_app_dir;
pub use windows::Windows;
pub use xdg::Xdg;

verus! {

/// `s` with every space replaced by a hyphen; every other character is kept.
pub open spec fn hyphenate(s: Seq<char>) -> Seq<char> {
    s.map_values(|c: char| if c == ' ' { '-' } else { c })
}

/// The arguments to the constructor of an [`AppStrategy`].
#[derive(Debug)]
pub struct AppStrategyArgs {
    /// The top level domain of the application, e.g. `com`, `org`, or `io.github`.
    pub top_level_domain: String,
    /// The name of the author of the application.
    pub author: String,
    /// The application's name. This should be capitalised if appropriate.
    pub app_name: String,
}

impl AppStrategyArgs {
    /// The bundle identifier: `{top_level_domain}.{author in lowercase}.{app_name}`.
    pub open spec fn bundle_id_spec(&self) -> Seq<char> {
        self.top_level_domain@ + "."@ + lowercase_of(self.author@) + "."@ + self.app_name@
    }

    /// The 'unixy' name: the application's name in lowercase, with spaces replaced by hyphens.
    pub open spec fn unixy_name_spec(&self) -> Seq<char> {
        hyphenate(lowercase_of(self.app_name@))
    }

    /// Constructs a bundle identifier from an `AppStrategyArgs`: the top level domain, the
    /// author in lowercase and the application's name as given, joined by dots.
    pub fn bundle_id(&self) -> (r: String)
        ensures
            r@ == self.bundle_id_spec(),
    {
        let author = to_lowercase(self.author.as_str());
        join_bundle_id(self.top_level_domain.as_str(), author.as_str(), self.app_name.as_str())
    }

    /// Returns a 'unixy' version of the application's name, akin to what would usually be used
    /// as a binary name: lowercase, with every space replaced by a hyphen.
    pub fn unixy_name(&self) -> (r: String)
        ensures
            r@ == self.unixy_name_spec(),
    {
        let lower = to_lowercase(self.app_name.as_str());
        hyphenate_spaces(lower.as_str())
    }
}

/// Allows applications to retrieve the paths of configuration, data, cache and state
/// directories specifically for them.
///
/// Each directory is stated as a spec function of the strategy and of the environment of
/// the lookup.
pub trait AppStrategy: Sized {
    /// The application's configuration directory in environment `env`.
    spec fn config_path(&self, env: Environment) -> Seq<char>;

    /// The application's data directory in environment `env`.
    spec fn data_path(&self, env: Environment) -> Seq<char>;

    /// The application's cache directory in environment `env`.
    spec fn cache_path(&self, env: Environment) -> Seq<char>;

    /// The application's state directory in environment `env`, if the convention has one.
    spec fn state_path(&self, env: Environment) -> Option<Seq<char>>;

    /// The application's runtime directory in environment `env`, if the convention has one.
    spec fn runtime_path(&self, env: Environment) -> Option<Seq<char>>;

    /// The constructor requires access to some basic information about the application. It
    /// fails only when the home directory cannot be located.
    fn new(args: AppStrategyArgs) -> (r: Result<Self, HomeDirError>);

    /// Gets the configuration directory for the application.
    fn config_dir(&self, env: &Environment) -> (r: String)
        ensures
            r@ == self.config_path(*env),
    ;

    /// Gets the data directory for the application.
    fn data_dir(&self, env: &Environment) -> (r: String)
        ensures
            r@ == self.data_path(*env),
    ;

    /// Gets the cache directory for the application.
    fn cache_dir(&self, env: &Environment) -> (r: String)
        ensures
            r@ == self.cache_path(*env),
    ;

    /// Gets the state directory for the application.
    /// The state directory may not exist for all platforms.
    fn state_dir(&self, env: &Environment) -> (r: Option<String>)
        ensures
            r matches Some(p) ==> self.state_path(*env) == Some(p@),
            r is None ==> self.state_path(*env) is None,
    ;

    /// Gets the runtime directory for the application.
    /// The runtime directory may not exist for all platforms.
    fn runtime_dir(&self, env: &Environment) -> (r: Option<String>)
        ensures
            r matches Some(p) ==> self.runtime_path(*env) == Some(p@),
            r is None ==> self.runtime_path(*env) is None,
    ;

    /// Constructs a path inside the application's configuration directory to which `path` has
    /// been appended.
    fn in_config_dir(&self, env: &Environment, path: &str) -> (r: String)
        ensures
            r@ == path_join(self.config_path(*env), path@),
    {
        let dir = self.config_dir(env);
        join_path(dir.as_str(), path)
    }

    /// Constructs a path inside the application's data directory to which `path` has been
    /// appended.
    fn in_data_dir(&self, env: &Environment, path: &str) -> (r: String)
        ensures
            r@ == path_join(self.data_path(*env), path@),
    {
        let dir = self.data_dir(env);
        join_path(dir.as_str(), path)
    }

    /// Constructs a path inside the application's cache directory to which `path` has been
    /// appended.
    fn in_cache_dir(&self, env: &Environment, path: &str) -> (r: String)
        ensures
            r@ == path_join(self.cache_path(*env), path@),
    {
        let dir = self.cache_dir(env);
        join_path(dir.as_str(), path)
    }
}

/// The bundle identifier `{top_level_domain}.{author}.{app_name}`, with each part as given.
pub fn join_bundle_id(top_level_domain: &str, author: &str, app_name: &str) -> (r: String)
    ensures
        r@ == top_level_domain@ + "."@ + author@ + "."@ + app_name@,
{
    let mut id = String::from_str(top_level_domain);
    id.append(".");
    id.append(author);
    id.append(".");
    id.append(app_name);
    id
}

/// `s` with every space replaced by a hyphen; every other character is kept.
pub fn hyphenate_spaces(s: &str) -> (r: String)
    ensures
        r@ == hyphenate(s@),
{
    let n = s.unicode_len();
    let mut out = String::new();
    let mut i: usize = 0;
    while i < n
        invariant
            n == s@.len(),
            i <= n,
            out@ == hyphenate(s@.take(i as int)),
        decreases n - i,
    {
        let ghost before = out@;
        let c = s.get_char(i);
        if c == ' ' {
            proof {
                reveal_strlit("-");
            }
            assert("-"@ =~= seq!['-']);
            out.append("-");
        } else {
            let one = s.substring_char(i, i + 1);
            assert(one@ =~= seq![c]);
            out.append(one);
        }
        let ghost mapped = if c == ' ' { '-' } else { c };
        assert(out@ =~= before.push(mapped));
        assert(s@.take(i + 1) =~= s@.take(i as int).push(c));
        assert(hyphenate(s@.take(i as int).push(c)) =~= hyphenate(s@.take(i as int)).push(mapped));
        i = i + 1;
    }
    assert(s@.take(n as int) =~= s@);
    out
}

} // verus!

verus! {

/// An application strategy's directories are determined by the strategy and the environment:
/// reading them from equal strategies in equal environments, for instance twice in a row from
/// one strategy with no change to the environment in between, gives identical paths, and so do
/// the paths built inside them.
pub proof fn lemma_app_dirs_deterministic<S: AppStrategy>(
    first: S,
    second: S,
    first_env: Environment,
    second_env: Environment,
    path: Seq<char>,
)
    requires
        first == second,
        first_env == second_env,
    ensures
        first.config_path(first_env) == second.config_path(second_env),
        first.data_path(first_env) == second.data_path(second_env),
        first.cache_path(first_env) == second.cache_path(second_env),
        first.state_path(first_env) == second.state_path(second_env),
        path_join(first.config_path(first_env), path) == path_join(
            second.config_path(second_env),
            path,
        ),
{
}

/// The Unix strategy keeps everything under `.{unixy name}` in the home directory: that
/// directory is the configuration directory, and holds `data/`, `cache/` and `state/`.
pub proof fn lemma_unix_layout(strategy: Unix, args: AppStrategyArgs, home: Seq<char>, env: Environment)
    requires
        strategy.root() == unix_root(home, args),
    ensures
        strategy.config_path(env) == path_join(home, "."@ + args.unixy_name_spec()),
        strategy.data_path(env) == path_join(strategy.config_path(env), "data/"@),
        strategy.cache_path(env) == path_join(strategy.config_path(env), "cache/"@),
        strategy.state_path(env) == Some(path_join(strategy.config_path(env), "state/"@)),
{
}

/// The freedesktop-style configuration directory of an application is its unixy name under
/// `.config/` in the home directory when `XDG_CONFIG_HOME` is unset or relative, and its unixy
/// name under the value of `XDG_CONFIG_HOME` when that is an absolute path.
pub proof fn lemma_xdg_app_config(strategy: Xdg, args: AppStrategyArgs, home: Seq<char>, env: Environment)
    requires
        strategy.base().home_path() == home,
        strategy.name() == args.unixy_name_spec(),
    ensures
        env.xdg_config_home is None ==> strategy.config_path(env) == path_join(
            path_join(home, ".config/"@),
            args.unixy_name_spec(),
        ),
        env.xdg_config_home matches Some(p) ==> {
            if path_is_absolute(p@) {
                strategy.config_path(env) == path_join(p@, args.unixy_name_spec())
            } else {
                strategy.config_path(env) == path_join(
                    path_join(home, ".config/"@),
                    args.unixy_name_spec(),
                )
            }
        },
{
}

} // verus!
