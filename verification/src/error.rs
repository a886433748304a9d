//! The failures that end a command.

use vstd::prelude::*;

verus! {

/// One of the two names that stand for a configured theme.
#[derive(Debug, Clone, Copy, PartialEq, Eq, Structural)]
pub enum Alias {
    Light,
    Dark,
}

/// Why a command could not be carried out.
#[derive(Debug, Clone, PartialEq, Eq)]
pub enum SkinnerError {
    /// The user's home directory is not known.
    MissingHomeDirectory,
    /// The configuration file is there but cannot be understood.
    ConfigParse { detail: String },
    /// `light` or `dark` was asked for and the configuration names no such theme.
    NoSuchAliasConfigured { alias: Alias },
    /// A file that holds the configuration, the themes or the state could not be read or written.
    Io { detail: String },
    /// The theme's directory has no last component to name its script by.
    InvalidThemeDirectory,
}

/// A `SkinnerError` with its texts as sequences of characters.
pub enum ErrorView {
    MissingHomeDirectory,
    ConfigParse { detail: Seq<char> },
    NoSuchAliasConfigured { alias: Alias },
    Io { detail: Seq<char> },
    InvalidThemeDirectory,
}

impl ErrorView {
    /// The sentence that tells the user of this failure.
    pub open spec fn message(self) -> Seq<char> {
        match self {
            ErrorView::MissingHomeDirectory => "HOME environment variable not set"@,
            ErrorView::ConfigParse { detail } => "Invalid config file: "@ + detail,
            ErrorView::NoSuchAliasConfigured { alias: Alias::Light } =>
                "No light theme configured in skinner.conf"@,
            ErrorView::NoSuchAliasConfigured { alias: Alias::Dark } =>
                "No dark theme configured in skinner.conf"@,
            ErrorView::Io { detail } => detail,
            ErrorView::InvalidThemeDirectory => "Invalid theme directory"@,
        }
    }
}

impl DeepView for SkinnerError {
    type V = ErrorView;

    open spec fn deep_view(&self) -> ErrorView {
        match self {
            SkinnerError::MissingHomeDirectory => ErrorView::MissingHomeDirectory,
            SkinnerError::ConfigParse { detail } => ErrorView::ConfigParse { detail: detail@ },
            SkinnerError::NoSuchAliasConfigured { alias } => ErrorView::NoSuchAliasConfigured {
                alias: *alias,
            },
            SkinnerError::Io { detail } => ErrorView::Io { detail: detail@ },
            SkinnerError::InvalidThemeDirectory => ErrorView::InvalidThemeDirectory,
        }
    }
}

impl View for SkinnerError {
    type V = ErrorView;

    open spec fn view(&self) -> ErrorView {
        self.deep_view()
    }
}

impl SkinnerError {
    /// The sentence that tells the user of this failure.
    pub fn message(&self) -> (text: String)
        ensures
            text@ == self@.message(),
    {
        match self {
            SkinnerError::MissingHomeDirectory => "HOME environment variable not set".to_owned(),
            SkinnerError::ConfigParse { detail } => {
                let mut text = "Invalid config file: ".to_owned();
                text.append(detail.as_str());
                text
            },
            SkinnerError::NoSuchAliasConfigured { alias: Alias::Light } =>
                "No light theme configured in skinner.conf".to_owned(),
            SkinnerError::NoSuchAliasConfigured { alias: Alias::Dark } =>
                "No dark theme configured in skinner.conf".to_owned(),
            SkinnerError::Io { detail } => detail.clone(),
            SkinnerError::InvalidThemeDirectory => "Invalid theme directory".to_owned(),
        }
    }

    /// A second value that holds the same failure.
    pub fn duplicate(&self) -> (copy: SkinnerError)
        ensures
            copy@ == self@,
    {
        match self {
            SkinnerError::MissingHomeDirectory => SkinnerError::MissingHomeDirectory,
            SkinnerError::ConfigParse { detail } => SkinnerError::ConfigParse {
                detail: detail.clone(),
            },
            SkinnerError::NoSuchAliasConfigured { alias } => SkinnerError::NoSuchAliasConfigured {
                alias: *alias,
            },
            SkinnerError::Io { detail } => SkinnerError::Io { detail: detail.clone() },
            SkinnerError::InvalidThemeDirectory => SkinnerError::InvalidThemeDirectory,
        }
    }
}

} // verus!
