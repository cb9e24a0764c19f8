use etcetera::app_strategy::hyphenate_spaces;
use etcetera::app_strategy::join_bundle_id;
use etcetera::app_strategy::AppStrategyArgs;

fn args(domain: &str, author: &str, app_name: &str) -> AppStrategyArgs {
    AppStrategyArgs {
        top_level_domain: domain.to_string(),
        author: author.to_string(),
        app_name: app_name.to_string(),
    }
}

#[test]
fn bundle_id_lowercases_author_only() {
    assert_eq!(args("com", "Apple", "Safari").bundle_id(), "com.apple.Safari".to_string());
}

#[test]
fn bundle_id_keeps_spaces_and_case_of_app_name() {
    assert_eq!(
        args("org", "Acme Corp", "Frobnicator Plus").bundle_id(),
        "org.acme corp.Frobnicator Plus".to_string()
    );
}

#[test]
fn bundle_id_of_empty_fields() {
    assert_eq!(args("", "", "").bundle_id(), "..".to_string());
}

#[test]
fn bundle_id_with_dotted_domain() {
    assert_eq!(args("io.github", "SomeOne", "tool").bundle_id(), "io.github.someone.tool".to_string());
}

#[test]
fn unixy_name_lowercases_and_hyphenates() {
    assert_eq!(
        args("org", "Mozilla", "Firefox Developer Edition").unixy_name(),
        "firefox-developer-edition".to_string()
    );
}

#[test]
fn unixy_name_keeps_other_punctuation() {
    assert_eq!(args("org", "x", "My_App.v2 Beta!").unixy_name(), "my_app.v2-beta!".to_string());
}

#[test]
fn unixy_name_of_empty_name() {
    assert_eq!(args("org", "x", "").unixy_name(), "".to_string());
}

#[test]
fn unixy_name_of_spaces_only() {
    assert_eq!(args("org", "x", "  ").unixy_name(), "--".to_string());
}

#[test]
fn unixy_name_non_ascii() {
    assert_eq!(args("org", "x", "Ünïcode Näme").unixy_name(), "ünïcode-näme".to_string());
}

#[test]
fn hyphenate_spaces_keeps_case() {
    assert_eq!(hyphenate_spaces("Firefox Developer Edition"), "Firefox-Developer-Edition".to_string());
    assert_eq!(hyphenate_spaces(""), "".to_string());
    assert_eq!(hyphenate_spaces("a\tb c"), "a\tb-c".to_string());
}

#[test]
fn join_bundle_id_joins_with_dots() {
    assert_eq!(join_bundle_id("com", "apple", "Safari"), "com.apple.Safari".to_string());
    assert_eq!(join_bundle_id("com", "Apple", "Safari"), "com.Apple.Safari".to_string());
}
