//! Where the program keeps its files, worked out once from the user's home directory.

use vstd::prelude::*;
use crate::error::{ErrorView, SkinnerError};
use crate::paths::{join, path_join};

verus! {

/// The places the program works with: the user's home directory, the
/// configuration file and the file that holds the name of the active theme.
#[derive(Debug, Clone, PartialEq, Eq)]
pub struct SkinnerApp {
    pub home: String,
    pub config_file: String,
    pub current_theme_file: String,
}

/// A `SkinnerApp` with its paths as sequences of characters.
pub struct AppView {
    pub home: Seq<char>,
    pub config_file: Seq<char>,
    pub current_theme_file: Seq<char>,
}

impl DeepView for SkinnerApp {
    type V = AppView;

    open spec fn deep_view(&self) -> AppView {
        AppView {
            home: self.home@,
            config_file: self.config_file@,
            current_theme_file: self.current_theme_file@,
        }
    }
}

impl View for SkinnerApp {
    type V = AppView;

    open spec fn view(&self) -> AppView {
        self.deep_view()
    }
}

/// The directory below `home` in which the program keeps its files.
pub open spec fn config_dir(home: Seq<char>) -> Seq<char> {
    home + "/.config/skinner"@
}

/// The places that belong to the home directory `home`.
pub open spec fn app_for(home: Seq<char>) -> AppView {
    AppView {
        home,
        config_file: path_join(config_dir(home), "skinner.conf"@),
        current_theme_file: path_join(config_dir(home), "current_theme"@),
    }
}

impl SkinnerApp {
    /// The places that belong to the user's home directory. Without a home
    /// directory there is nowhere to look, and none are given.
    pub fn new(home: Option<String>) -> (app: Result<SkinnerApp, SkinnerError>)
        ensures
            home is None ==> app is Err && app->Err_0@ == ErrorView::MissingHomeDirectory,
            home matches Some(h) ==> app is Ok && app->Ok_0@ == app_for(h@),
    {
        match home {
            None => Err(SkinnerError::MissingHomeDirectory),
            Some(home) => {
                let mut dir = home.clone();
                dir.append("/.config/skinner");
                let config_file = join(dir.as_str(), "skinner.conf");
                let current_theme_file = join(dir.as_str(), "current_theme");
                Ok(SkinnerApp { home, config_file, current_theme_file })
            },
        }
    }

    /// A second value that holds the same places.
    pub fn duplicate(&self) -> (copy: SkinnerApp)
        ensures
            copy@ == self@,
    {
        SkinnerApp {
            home: self.home.clone(),
            config_file: self.config_file.clone(),
            current_theme_file: self.current_theme_file.clone(),
        }
    }
}

} // verus!
