//! What a command has to tell the user besides its output: lines for the log,
//! each with the level at which it is worth showing.

use vstd::prelude::*;

verus! {

/// How much the user must have asked to hear before a notice is shown.
#[derive(Debug, Clone, Copy, PartialEq, Eq, Structural)]
pub enum Level {
    Error,
    Info,
    Debug,
}

/// One line for the log.
#[derive(Debug, Clone, PartialEq, Eq)]
pub struct Notice {
    pub level: Level,
    pub message: String,
}

/// A `Notice` with its message as a sequence of characters.
pub struct NoticeView {
    pub level: Level,
    pub message: Seq<char>,
}

impl DeepView for Notice {
    type V = NoticeView;

    open spec fn deep_view(&self) -> NoticeView {
        NoticeView { level: self.level, message: self.message@ }
    }
}

impl View for Notice {
    type V = NoticeView;

    open spec fn view(&self) -> NoticeView {
        self.deep_view()
    }
}

/// The notice that says `message` at level `Info`.
pub open spec fn info(message: Seq<char>) -> NoticeView {
    NoticeView { level: Level::Info, message }
}

/// The notice that says `message` at level `Error`.
pub open spec fn error(message: Seq<char>) -> NoticeView {
    NoticeView { level: Level::Error, message }
}

/// The notice that says `message` at level `Debug`.
pub open spec fn debug(message: Seq<char>) -> NoticeView {
    NoticeView { level: Level::Debug, message }
}

/// The most detailed level that is shown when the verbosity flag was given `verbose` times.
pub open spec fn level_for(verbose: u8) -> Level {
    if verbose == 0 {
        Level::Error
    } else if verbose == 1 {
        Level::Info
    } else {
        Level::Debug
    }
}

/// The most detailed level that is shown when the verbosity flag was given
/// `verbose` times: errors only, then information, then everything.
pub fn log_level(verbose: u8) -> (level: Level)
    ensures
        level == level_for(verbose),
{
    if verbose == 0 {
        Level::Error
    } else if verbose == 1 {
        Level::Info
    } else {
        Level::Debug
    }
}

impl Notice {
    /// A notice at level `level` that says `message`.
    pub fn new(level: Level, message: String) -> (notice: Notice)
        ensures
            notice@ == (NoticeView { level, message: message@ }),
    {
        Notice { level, message }
    }
}

} // verus!
