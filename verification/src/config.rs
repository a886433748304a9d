//! The configuration: where the themes are, which signal tells the shells of a
//! change, and which themes `light` and `dark` stand for. A file may set any of
//! these; what it leaves out falls back to a default of its own.

use vstd::prelude::*;
use crate::context::SkinnerApp;
use crate::error::{Alias, ErrorView, SkinnerError};
use crate::text::same_text;

verus! {

/// The settings that a command works with.
#[derive(Debug, Clone, PartialEq, Eq)]
pub struct Config {
    /// The directory that holds one directory per theme.
    pub themes: String,
    /// The name of the signal sent to the shells, without `SIG` and without a dash.
    pub signal: String,
    /// The theme that `light` stands for.
    pub light: Option<String>,
    /// The theme that `dark` stands for.
    pub dark: Option<String>,
}

/// A `Config` with its texts as sequences of characters.
pub struct ConfigView {
    pub themes: Seq<char>,
    pub signal: Seq<char>,
    pub light: Option<Seq<char>>,
    pub dark: Option<Seq<char>>,
}

impl DeepView for Config {
    type V = ConfigView;

    open spec fn deep_view(&self) -> ConfigView {
        ConfigView {
            themes: self.themes@,
            signal: self.signal@,
            light: self.light.deep_view(),
            dark: self.dark.deep_view(),
        }
    }
}

impl View for Config {
    type V = ConfigView;

    open spec fn view(&self) -> ConfigView {
        self.deep_view()
    }
}

/// What was found where the configuration file should be.
#[derive(Debug, Clone, PartialEq, Eq)]
pub enum ConfigSource {
    /// There is no such file.
    Absent,
    /// The file is there and could not be read.
    Unreadable { detail: String },
    /// The file was read and is not a valid configuration.
    Malformed { detail: String },
    /// The file was read; each field holds what the file sets it to, if it sets it.
    Parsed {
        themes: Option<String>,
        signal: Option<String>,
        light: Option<String>,
        dark: Option<String>,
    },
}

/// A `ConfigSource` with its texts as sequences of characters.
pub enum ConfigSourceView {
    Absent,
    Unreadable { detail: Seq<char> },
    Malformed { detail: Seq<char> },
    Parsed {
        themes: Option<Seq<char>>,
        signal: Option<Seq<char>>,
        light: Option<Seq<char>>,
        dark: Option<Seq<char>>,
    },
}

impl DeepView for ConfigSource {
    type V = ConfigSourceView;

    open spec fn deep_view(&self) -> ConfigSourceView {
        match self {
            ConfigSource::Absent => ConfigSourceView::Absent,
            ConfigSource::Unreadable { detail } => ConfigSourceView::Unreadable {
                detail: detail@,
            },
            ConfigSource::Malformed { detail } => ConfigSourceView::Malformed { detail: detail@ },
            ConfigSource::Parsed { themes, signal, light, dark } => ConfigSourceView::Parsed {
                themes: themes.deep_view(),
                signal: signal.deep_view(),
                light: light.deep_view(),
                dark: dark.deep_view(),
            },
        }
    }
}

impl View for ConfigSource {
    type V = ConfigSourceView;

    open spec fn view(&self) -> ConfigSourceView {
        self.deep_view()
    }
}

/// Whether `path` begins with a tilde that stands alone or before a slash:
/// such a tilde stands for the home directory.
pub open spec fn tilde_leads(path: Seq<char>) -> bool {
    path.len() >= 1 && path[0] == '~' && (path.len() == 1 || path[1] == '/')
}

/// Whether `path` begins with a tilde before a backslash. Such a tilde stands
/// for the home directory on Windows and for itself elsewhere.
pub open spec fn tilde_before_backslash(path: Seq<char>) -> bool {
    path.len() >= 2 && path[0] == '~' && path[1] == '\\'
}

/// `path` with the home directory `home` in place of its first character.
pub open spec fn home_for_tilde(path: Seq<char>, home: Seq<char>) -> Seq<char> {
    home + path.skip(1)
}

/// What `shellexpand::tilde_with_context` makes of `path` when the home
/// directory is `home`, on the platform the library is built for.
pub uninterp spec fn tilde_expansion(path: Seq<char>, home: Seq<char>) -> Seq<char>;

/// `path` with its leading tilde expanded to the home directory `home`. Only
/// for a tilde before a backslash does the platform decide.
pub open spec fn expanded(path: Seq<char>, home: Seq<char>) -> Seq<char> {
    if tilde_leads(path) {
        home_for_tilde(path, home)
    } else if tilde_before_backslash(path) {
        tilde_expansion(path, home)
    } else {
        path
    }
}

/// The home directory as the tilde expansion asks for it: one that is known.
fn known_home(home: &str) -> (known: Option<&str>)
    ensures
        known == Some(home),
{
    Some(home)
}

/// `shellexpand::tilde_with_context`, with a home directory that is known. A
/// tilde at the start of `path` that stands alone or before a slash is
/// replaced by `home`. One before a backslash is replaced on Windows and kept
/// elsewhere. Every other path comes back as it is.
#[verifier::external_body]
fn expand_tilde(path: &str, home: &str) -> (result: String)
    ensures
        result@ == tilde_expansion(path@, home@),
        tilde_leads(path@) ==> result@ == home_for_tilde(path@, home@),
        tilde_before_backslash(path@) ==> result@ == path@ || result@ == home_for_tilde(
            path@,
            home@,
        ),
        !tilde_leads(path@) && !tilde_before_backslash(path@) ==> result@ == path@,
{
    shellexpand::tilde_with_context(path, || known_home(home)).into_owned()
}

/// The signal that the shells are sent where the configuration names none.
pub open spec fn signal_default() -> Seq<char> {
    "URG"@
}

/// The directory of the themes where the configuration names none.
pub open spec fn themes_default(home: Seq<char>) -> Seq<char> {
    home + "/.config/skinner/themes"@
}

/// The settings in force when there is no configuration file.
pub open spec fn defaults(home: Seq<char>) -> ConfigView {
    ConfigView {
        themes: themes_default(home),
        signal: signal_default(),
        light: None,
        dark: None,
    }
}

/// The settings that a file yields which sets the given fields: the
/// directory of the themes with its tilde expanded, the other fields as they
/// are, and the default in place of each field that is not set.
pub open spec fn settings_from(
    home: Seq<char>,
    themes: Option<Seq<char>>,
    signal: Option<Seq<char>>,
    light: Option<Seq<char>>,
    dark: Option<Seq<char>>,
) -> ConfigView {
    ConfigView {
        themes: match themes {
            Some(path) => expanded(path, home),
            None => themes_default(home),
        },
        signal: match signal {
            Some(name) => name,
            None => signal_default(),
        },
        light,
        dark,
    }
}

/// What loading the configuration from `source` ends in.
pub open spec fn loaded(home: Seq<char>, source: ConfigSourceView) -> Result<
    ConfigView,
    ErrorView,
> {
    match source {
        ConfigSourceView::Absent => Ok(defaults(home)),
        ConfigSourceView::Unreadable { detail } => Err(ErrorView::Io { detail }),
        ConfigSourceView::Malformed { detail } => Err(ErrorView::ConfigParse { detail }),
        ConfigSourceView::Parsed { themes, signal, light, dark } => Ok(
            settings_from(home, themes, signal, light, dark),
        ),
    }
}

/// The theme that `requested` stands for under `config`: the configured theme
/// for `light` and for `dark`, and the name itself for every other name.
pub open spec fn resolved(config: ConfigView, requested: Seq<char>) -> Result<
    Seq<char>,
    ErrorView,
> {
    if requested == "light"@ {
        match config.light {
            Some(theme) => Ok(theme),
            None => Err(ErrorView::NoSuchAliasConfigured { alias: Alias::Light }),
        }
    } else if requested == "dark"@ {
        match config.dark {
            Some(theme) => Ok(theme),
            None => Err(ErrorView::NoSuchAliasConfigured { alias: Alias::Dark }),
        }
    } else {
        Ok(requested)
    }
}

/// The view of a result that holds a text or a failure.
pub open spec fn text_result(result: Result<String, SkinnerError>) -> Result<
    Seq<char>,
    ErrorView,
> {
    match result {
        Ok(text) => Ok(text@),
        Err(error) => Err(error@),
    }
}

/// The view of a result that holds settings or a failure.
pub open spec fn config_result(result: Result<Config, SkinnerError>) -> Result<
    ConfigView,
    ErrorView,
> {
    match result {
        Ok(config) => Ok(config@),
        Err(error) => Err(error@),
    }
}

/// The signal that the shells are sent where the configuration names none.
pub fn default_signal() -> (signal: String)
    ensures
        signal@ == signal_default(),
{
    "URG".to_owned()
}

/// The directory of the themes where the configuration names none: `themes`
/// in the program's directory below `home`.
pub fn default_theme_dir(home: &str) -> (dir: String)
    ensures
        dir@ == themes_default(home@),
{
    let mut dir = home.to_owned();
    dir.append("/.config/skinner/themes");
    dir
}

/// `path` with a leading tilde expanded to the home directory `home`. The
/// tilde must stand alone or before a slash; before a backslash the platform
/// decides between expanding it and keeping the path.
pub fn expand_path(path: &str, home: &str) -> (result: String)
    ensures
        result@ == expanded(path@, home@),
        result@ == path@ || (path@.len() >= 1 && path@[0] == '~' && result@ == home_for_tilde(
            path@,
            home@,
        )),
{
    expand_tilde(path, home)
}

impl Config {
    /// The settings in force when there is no configuration file.
    pub fn defaults(home: &str) -> (config: Config)
        ensures
            config@ == defaults(home@),
    {
        Config {
            themes: default_theme_dir(home),
            signal: default_signal(),
            light: None,
            dark: None,
        }
    }

    /// The settings that a file yields which sets the given fields, for a
    /// user whose home directory is `home`.
    pub fn from_fields(
        home: &str,
        themes: Option<String>,
        signal: Option<String>,
        light: Option<String>,
        dark: Option<String>,
    ) -> (config: Config)
        ensures
            config@ == settings_from(
                home@,
                themes.deep_view(),
                signal.deep_view(),
                light.deep_view(),
                dark.deep_view(),
            ),
    {
        let themes = match themes {
            Some(path) => expand_path(path.as_str(), home),
            None => default_theme_dir(home),
        };
        let signal = match signal {
            Some(name) => name,
            None => default_signal(),
        };
        Config { themes, signal, light, dark }
    }

    /// The theme that `requested` stands for: the configured theme for `light`
    /// and for `dark`, which fails where none is configured, and the name
    /// itself for every other name.
    pub fn resolve(&self, requested: &str) -> (target: Result<String, SkinnerError>)
        ensures
            text_result(target) == resolved(self@, requested@),
    {
        if same_text(requested, "light") {
            match &self.light {
                Some(theme) => Ok(theme.clone()),
                None => Err(SkinnerError::NoSuchAliasConfigured { alias: Alias::Light }),
            }
        } else if same_text(requested, "dark") {
            match &self.dark {
                Some(theme) => Ok(theme.clone()),
                None => Err(SkinnerError::NoSuchAliasConfigured { alias: Alias::Dark }),
            }
        } else {
            Ok(requested.to_owned())
        }
    }
}

impl SkinnerApp {
    /// The settings to work with, given what was found where the
    /// configuration file should be. No file means the defaults. A file that
    /// cannot be read or understood is a failure. Otherwise the file's fields
    /// count, each with its default where the file leaves it out, and with
    /// the tilde of the themes' directory expanded.
    pub fn load_config(&self, source: ConfigSource) -> (config: Result<Config, SkinnerError>)
        ensures
            config_result(config) == loaded(self.home@, source@),
    {
        match source {
            ConfigSource::Absent => Ok(Config::defaults(self.home.as_str())),
            ConfigSource::Unreadable { detail } => Err(SkinnerError::Io { detail }),
            ConfigSource::Malformed { detail } => Err(SkinnerError::ConfigParse { detail }),
            ConfigSource::Parsed { themes, signal, light, dark } => Ok(
                Config::from_fields(self.home.as_str(), themes, signal, light, dark),
            ),
        }
    }
}

} // verus!
