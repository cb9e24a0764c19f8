use etcetera::app_strategy::Apple;
use etcetera::app_strategy::AppStrategy;
use etcetera::app_strategy::AppStrategyArgs;
use etcetera::app_strategy::Unix;
use etcetera::app_strategy::Windows;
use etcetera::app_strategy::Xdg;
use etcetera::home_dir;
use etcetera::Environment;

const HOME: &str = "/home/user";

fn args(domain: &str, author: &str, app_name: &str) -> AppStrategyArgs {
    AppStrategyArgs {
        top_level_domain: domain.to_string(),
        author: author.to_string(),
        app_name: app_name.to_string(),
    }
}

fn htop() -> AppStrategyArgs {
    args("hm", "hisham", "htop")
}

fn all_set(config: &str, data: &str, cache: &str, state: &str) -> Environment {
    Environment {
        xdg_config_home: Some(config.to_string()),
        xdg_data_home: Some(data.to_string()),
        xdg_cache_home: Some(cache.to_string()),
        xdg_state_home: Some(state.to_string()),
    }
}

#[test]
fn xdg_app_defaults() {
    let s = Xdg::from_home_dir(htop(), HOME);
    let env = Environment::unset();
    assert_eq!(s.config_dir(&env), "/home/user/.config/htop");
    assert_eq!(s.data_dir(&env), "/home/user/.local/share/htop");
    assert_eq!(s.cache_dir(&env), "/home/user/.cache/htop");
    assert_eq!(s.state_dir(&env), Some("/home/user/.local/state/htop".to_string()));
    assert_eq!(s.runtime_dir(&env), None);
}

#[test]
fn xdg_app_absolute_overrides() {
    let s = Xdg::from_home_dir(htop(), HOME);
    let env = all_set(
        "/my_config_location/",
        "/my_data_location/",
        "/my_cache_location/",
        "/my_state_location/",
    );
    assert_eq!(s.config_dir(&env), "/my_config_location/htop");
    assert_eq!(s.data_dir(&env), "/my_data_location/htop");
    assert_eq!(s.cache_dir(&env), "/my_cache_location/htop");
    assert_eq!(s.state_dir(&env), Some("/my_state_location/htop".to_string()));
}

#[test]
fn xdg_app_relative_overrides_ignored() {
    let s = Xdg::from_home_dir(htop(), HOME);
    let env = all_set("relative_path/", "./another_one/", "yet_another/", "./and_another");
    assert_eq!(s.config_dir(&env), "/home/user/.config/htop");
    assert_eq!(s.data_dir(&env), "/home/user/.local/share/htop");
    assert_eq!(s.cache_dir(&env), "/home/user/.cache/htop");
    assert_eq!(s.state_dir(&env), Some("/home/user/.local/state/htop".to_string()));
}

#[test]
fn xdg_app_uses_unixy_name() {
    let s = Xdg::from_home_dir(args("org", "Acme Corp", "Frobnicator Plus"), HOME);
    assert_eq!(s.config_dir(&Environment::unset()), "/home/user/.config/frobnicator-plus");
}

#[test]
fn unix_app_layout() {
    let s = Unix::from_home_dir(args("org", "Bram Moolenar", "Vim"), HOME);
    let env = Environment::unset();
    assert_eq!(s.config_dir(&env), "/home/user/.vim");
    assert_eq!(s.data_dir(&env), "/home/user/.vim/data/");
    assert_eq!(s.cache_dir(&env), "/home/user/.vim/cache/");
    assert_eq!(s.state_dir(&env), Some("/home/user/.vim/state/".to_string()));
    assert_eq!(s.runtime_dir(&env), None);
}

#[test]
fn unix_app_ignores_environment() {
    let s = Unix::from_home_dir(args("com", "Veteran", "wry"), HOME);
    let env = all_set("/a/", "/b/", "/c/", "/d/");
    assert_eq!(s.config_dir(&env), "/home/user/.wry");
    assert_eq!(s.data_dir(&env), "/home/user/.wry/data/");
}

#[test]
fn apple_app_layout() {
    let s = Apple::from_home_dir(args("com", "Apple", "Safari"), HOME);
    let env = Environment::unset();
    assert_eq!(s.config_dir(&env), "/home/user/Library/Preferences/com.apple.Safari");
    assert_eq!(s.data_dir(&env), "/home/user/Library/Application Support/com.apple.Safari");
    assert_eq!(s.cache_dir(&env), "/home/user/Library/Caches/com.apple.Safari");
    assert_eq!(s.state_dir(&env), None);
    assert_eq!(s.runtime_dir(&env), None);
}

#[test]
fn windows_app_layout() {
    let s = Windows::from_home_dir(args("org", "Acme Corp", "Frobnicator Plus"), HOME);
    let env = Environment::unset();
    assert_eq!(s.home_dir(), HOME);
    assert_eq!(
        s.config_dir(&env),
        "/home/user/AppData/Roaming/Acme Corp/Frobnicator Plus/config/"
    );
    assert_eq!(s.data_dir(&env), "/home/user/AppData/Roaming/Acme Corp/Frobnicator Plus/data/");
    assert_eq!(s.cache_dir(&env), "/home/user/AppData/Local/Acme Corp/Frobnicator Plus/cache/");
    assert_eq!(s.state_dir(&env), None);
    assert_eq!(s.runtime_dir(&env), None);
}

#[test]
fn in_config_dir_joins_onto_config_dir() {
    let env = Environment::unset();
    let xdg = Xdg::from_home_dir(htop(), HOME);
    assert_eq!(xdg.in_config_dir(&env, "config.toml"), "/home/user/.config/htop/config.toml");
    let unix = Unix::from_home_dir(htop(), HOME);
    assert_eq!(unix.in_config_dir(&env, "config.toml"), "/home/user/.htop/config.toml");
    let apple = Apple::from_home_dir(htop(), HOME);
    assert_eq!(
        apple.in_config_dir(&env, "config.toml"),
        "/home/user/Library/Preferences/hm.hisham.htop/config.toml"
    );
    let windows = Windows::from_home_dir(htop(), HOME);
    assert_eq!(
        windows.in_config_dir(&env, "config.toml"),
        "/home/user/AppData/Roaming/hisham/htop/config/config.toml"
    );
}

#[test]
fn in_dir_helpers_match_join_for_every_variant() {
    let env = all_set("/cfg/", "/data/", "/cache/", "/state/");
    let p = "sub/file.txt";
    let join = |dir: String| {
        std::path::Path::new(&dir).join(p).to_string_lossy().into_owned()
    };
    let xdg = Xdg::from_home_dir(htop(), HOME);
    assert_eq!(xdg.in_config_dir(&env, p), join(xdg.config_dir(&env)));
    assert_eq!(xdg.in_data_dir(&env, p), join(xdg.data_dir(&env)));
    assert_eq!(xdg.in_cache_dir(&env, p), join(xdg.cache_dir(&env)));
    let unix = Unix::from_home_dir(htop(), HOME);
    assert_eq!(unix.in_config_dir(&env, p), join(unix.config_dir(&env)));
    assert_eq!(unix.in_data_dir(&env, p), join(unix.data_dir(&env)));
    assert_eq!(unix.in_cache_dir(&env, p), join(unix.cache_dir(&env)));
    let apple = Apple::from_home_dir(htop(), HOME);
    assert_eq!(apple.in_config_dir(&env, p), join(apple.config_dir(&env)));
    assert_eq!(apple.in_data_dir(&env, p), join(apple.data_dir(&env)));
    assert_eq!(apple.in_cache_dir(&env, p), join(apple.cache_dir(&env)));
    let windows = Windows::from_home_dir(htop(), HOME);
    assert_eq!(windows.in_config_dir(&env, p), join(windows.config_dir(&env)));
    assert_eq!(windows.in_data_dir(&env, p), join(windows.data_dir(&env)));
    assert_eq!(windows.in_cache_dir(&env, p), join(windows.cache_dir(&env)));
}

#[test]
fn in_data_and_cache_dir_values() {
    let env = Environment::unset();
    let unix = Unix::from_home_dir(args("org", "x", "Vim"), HOME);
    assert_eq!(unix.in_data_dir(&env, "swap"), "/home/user/.vim/data/swap");
    assert_eq!(unix.in_cache_dir(&env, "undo"), "/home/user/.vim/cache/undo");
}

#[test]
fn in_config_dir_with_absolute_path_replaces() {
    let xdg = Xdg::from_home_dir(htop(), HOME);
    assert_eq!(xdg.in_config_dir(&Environment::unset(), "/etc/htoprc"), "/etc/htoprc");
}

#[test]
fn app_reads_are_deterministic() {
    let env = Environment::unset();
    let xdg = Xdg::from_home_dir(htop(), HOME);
    assert_eq!(xdg.config_dir(&env), xdg.config_dir(&env));
    assert_eq!(xdg.state_dir(&env), xdg.state_dir(&env));
    let unix = Unix::from_home_dir(htop(), HOME);
    assert_eq!(unix.data_dir(&env), unix.data_dir(&env));
    let again = Unix::from_home_dir(htop(), HOME);
    assert_eq!(unix.config_dir(&env), again.config_dir(&env));
    let windows = Windows::from_home_dir(htop(), HOME);
    assert_eq!(windows.cache_dir(&env), windows.cache_dir(&env));
    assert_eq!(windows.clone(), windows);
}

#[test]
fn app_new_uses_the_home_directory() {
    match home_dir() {
        Ok(home) => {
            let windows = Windows::new(htop()).unwrap();
            assert_eq!(windows.home_dir(), home.as_str());
            let env = Environment::unset();
            let unix = Unix::new(htop()).unwrap();
            assert_eq!(unix.config_dir(&env), Unix::from_home_dir(htop(), &home).config_dir(&env));
            let xdg = Xdg::new(htop()).unwrap();
            assert_eq!(xdg.config_dir(&env), Xdg::from_home_dir(htop(), &home).config_dir(&env));
            let apple = Apple::new(htop()).unwrap();
            assert_eq!(apple.config_dir(&env), Apple::from_home_dir(htop(), &home).config_dir(&env));
        }
        Err(_) => assert!(Xdg::new(htop()).is_err()),
    }
}
