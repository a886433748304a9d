//! The active theme. Its name is kept in a file; where there is no file, no
//! theme is active, which goes by the name `off`.

use vstd::prelude::*;
use crate::config::text_result;
use crate::context::SkinnerApp;
use crate::error::{ErrorView, SkinnerError};
use crate::request::{Request, RequestView};
use crate::text::{trim, trimmed};

verus! {

/// What was found where the name of the active theme is kept.
#[derive(Debug, Clone, PartialEq, Eq)]
pub enum StateSource {
    /// There is no such file.
    Absent,
    /// The file is there and could not be read.
    Unreadable { detail: String },
    /// The file holds `text`.
    Contents { text: String },
}

/// A `StateSource` with its texts as sequences of characters.
pub enum StateView {
    Absent,
    Unreadable { detail: Seq<char> },
    Contents { text: Seq<char> },
}

impl DeepView for StateSource {
    type V = StateView;

    open spec fn deep_view(&self) -> StateView {
        match self {
            StateSource::Absent => StateView::Absent,
            StateSource::Unreadable { detail } => StateView::Unreadable { detail: detail@ },
            StateSource::Contents { text } => StateView::Contents { text: text@ },
        }
    }
}

impl View for StateSource {
    type V = StateView;

    open spec fn view(&self) -> StateView {
        self.deep_view()
    }
}

/// What became of writing the name of the active theme.
#[derive(Debug, Clone, PartialEq, Eq)]
pub enum WriteOutcome {
    /// The file now holds the name.
    Written,
    /// The file could not be written.
    Failed { detail: String },
}

/// A `WriteOutcome` with its text as a sequence of characters.
pub enum WriteView {
    Written,
    Failed { detail: Seq<char> },
}

impl DeepView for WriteOutcome {
    type V = WriteView;

    open spec fn deep_view(&self) -> WriteView {
        match self {
            WriteOutcome::Written => WriteView::Written,
            WriteOutcome::Failed { detail } => WriteView::Failed { detail: detail@ },
        }
    }
}

impl View for WriteOutcome {
    type V = WriteView;

    open spec fn view(&self) -> WriteView {
        self.deep_view()
    }
}

/// The name that stands for no theme being active.
pub open spec fn off() -> Seq<char> {
    "off"@
}

/// The name of the active theme, given what was found where it is kept:
/// `off` where there is no file, a failure where the file cannot be read, and
/// else what the file holds, without the white space around it.
pub open spec fn current_theme(source: StateView) -> Result<Seq<char>, ErrorView> {
    match source {
        StateView::Absent => Ok(off()),
        StateView::Unreadable { detail } => Err(ErrorView::Io { detail }),
        StateView::Contents { text } => Ok(trimmed(text)),
    }
}

/// The request to make `theme` the active theme on record in the file at `path`.
pub open spec fn write_state(path: Seq<char>, theme: Seq<char>) -> RequestView {
    RequestView::WriteState { path, theme }
}

impl SkinnerApp {
    /// The name of the active theme, given what was found where it is kept:
    /// `off` where there is no file, a failure where the file cannot be read,
    /// and else what the file holds, without the white space around it.
    pub fn get_current_theme(&self, source: StateSource) -> (theme: Result<String, SkinnerError>)
        ensures
            text_result(theme) == current_theme(source@),
    {
        match source {
            StateSource::Absent => Ok("off".to_owned()),
            StateSource::Unreadable { detail } => Err(SkinnerError::Io { detail }),
            StateSource::Contents { text } => Ok(trim(text.as_str())),
        }
    }

    /// The request that puts `theme` on record as the active theme: the file
    /// that keeps the name is to hold `theme` and nothing else.
    pub fn set_current_theme(&self, theme: &str) -> (request: Request)
        ensures
            request@ == write_state(self.current_theme_file@, theme@),
    {
        Request::WriteState { path: self.current_theme_file.clone(), theme: theme.to_owned() }
    }
}

} // verus!
