use skinner::config::{default_signal, default_theme_dir, expand_path, Config, ConfigSource};
use skinner::context::SkinnerApp;
use skinner::error::{Alias, SkinnerError};

fn app() -> SkinnerApp {
    SkinnerApp::new(Some("/home/u".to_string())).unwrap()
}

fn settings(light: Option<&str>, dark: Option<&str>) -> Config {
    Config {
        themes: "/themes".to_string(),
        signal: "URG".to_string(),
        light: light.map(|name| name.to_string()),
        dark: dark.map(|name| name.to_string()),
    }
}

#[test]
fn default_signal_is_urg() {
    assert_eq!(default_signal(), "URG");
}

#[test]
fn default_theme_dir_lies_below_home() {
    assert_eq!(default_theme_dir("/home/u"), "/home/u/.config/skinner/themes");
}

#[test]
fn missing_file_gives_defaults() {
    let config = app().load_config(ConfigSource::Absent).unwrap();
    assert_eq!(config.themes, "/home/u/.config/skinner/themes");
    assert_eq!(config.signal, "URG");
    assert_eq!(config.light, None);
    assert_eq!(config.dark, None);
}

#[test]
fn empty_file_falls_back_field_by_field() {
    let source = ConfigSource::Parsed { themes: None, signal: None, light: None, dark: None };
    assert_eq!(app().load_config(source), Ok(Config::defaults("/home/u")));
}

#[test]
fn set_fields_are_kept_and_others_default() {
    let source = ConfigSource::Parsed {
        themes: None,
        signal: Some("USR1".to_string()),
        light: Some("solar".to_string()),
        dark: None,
    };
    let config = app().load_config(source).unwrap();
    assert_eq!(config.themes, "/home/u/.config/skinner/themes");
    assert_eq!(config.signal, "USR1");
    assert_eq!(config.light, Some("solar".to_string()));
    assert_eq!(config.dark, None);
}

#[test]
fn themes_path_has_its_tilde_expanded() {
    let source = ConfigSource::Parsed {
        themes: Some("~/my/themes".to_string()),
        signal: None,
        light: None,
        dark: Some("night".to_string()),
    };
    let config = app().load_config(source).unwrap();
    assert_eq!(config.themes, "/home/u/my/themes");
    assert_eq!(config.dark, Some("night".to_string()));
}

#[test]
fn malformed_file_is_a_parse_error() {
    let source = ConfigSource::Malformed { detail: "line 3: bad indentation".to_string() };
    let error = app().load_config(source).unwrap_err();
    assert_eq!(error, SkinnerError::ConfigParse { detail: "line 3: bad indentation".to_string() });
    assert_eq!(error.message(), "Invalid config file: line 3: bad indentation");
}

#[test]
fn unreadable_file_is_an_io_error() {
    let source = ConfigSource::Unreadable { detail: "permission denied".to_string() };
    let error = app().load_config(source).unwrap_err();
    assert_eq!(error, SkinnerError::Io { detail: "permission denied".to_string() });
    assert_eq!(error.message(), "permission denied");
}

#[test]
fn tilde_alone_is_the_home_directory() {
    assert_eq!(expand_path("~", "/home/u"), "/home/u");
}

#[test]
fn tilde_before_slash_is_expanded() {
    assert_eq!(expand_path("~/a/b", "/home/u"), "/home/u/a/b");
}

#[test]
fn tilde_of_another_user_is_kept() {
    assert_eq!(expand_path("~other/a", "/home/u"), "~other/a");
}

#[test]
fn tilde_inside_a_path_is_kept() {
    assert_eq!(expand_path("/a/~/b", "/home/u"), "/a/~/b");
    assert_eq!(expand_path("", "/home/u"), "");
    assert_eq!(expand_path("/abs", "/home/u"), "/abs");
}

#[test]
fn light_and_dark_stand_for_configured_themes() {
    let config = settings(Some("solar"), Some("night"));
    assert_eq!(config.resolve("light"), Ok("solar".to_string()));
    assert_eq!(config.resolve("dark"), Ok("night".to_string()));
}

#[test]
fn other_names_stand_for_themselves() {
    let config = settings(Some("solar"), None);
    assert_eq!(config.resolve("solar"), Ok("solar".to_string()));
    assert_eq!(config.resolve("off"), Ok("off".to_string()));
    assert_eq!(config.resolve("Light"), Ok("Light".to_string()));
    assert_eq!(config.resolve(""), Ok("".to_string()));
}

#[test]
fn unset_alias_is_an_error() {
    let config = settings(None, None);
    let light = config.resolve("light").unwrap_err();
    assert_eq!(light, SkinnerError::NoSuchAliasConfigured { alias: Alias::Light });
    assert_eq!(light.message(), "No light theme configured in skinner.conf");
    let dark = config.resolve("dark").unwrap_err();
    assert_eq!(dark, SkinnerError::NoSuchAliasConfigured { alias: Alias::Dark });
    assert_eq!(dark.message(), "No dark theme configured in skinner.conf");
}

#[test]
fn alias_is_resolved_once() {
    let config = settings(Some("dark"), Some("off"));
    assert_eq!(config.resolve("light"), Ok("dark".to_string()));
    assert_eq!(config.resolve("dark"), Ok("off".to_string()));
}
