//! What a command asks of the world around it. The library decides what is to
//! be read, run or written; whoever drives it does so and reports back.

use vstd::prelude::*;
use crate::error::{ErrorView, SkinnerError};
use crate::notice::{Notice, NoticeView};

verus! {

/// One thing to be done outside the library.
#[derive(Debug, Clone, PartialEq, Eq)]
pub enum Request {
    /// Read and parse the configuration file at `path`.
    ReadConfig { path: String },
    /// Read the file at `path`, which holds the name of the active theme.
    ReadState { path: String },
    /// Look at each entry of the directory `dir`.
    ScanThemes { dir: String },
    /// If there is a file at `path`, run `interpreter` on it, with no further argument.
    RunScript { interpreter: String, path: String },
    /// Replace the contents of the file at `path` by `theme`.
    WriteState { path: String, theme: String },
    /// Run `program` with `arguments`, to send a signal to every process of one name.
    SendSignal { program: String, arguments: Vec<String> },
    /// Nothing is left to do; the command has failed if `error` is there.
    Finish { error: Option<SkinnerError> },
}

/// A `Request` with its texts as sequences of characters.
pub enum RequestView {
    ReadConfig { path: Seq<char> },
    ReadState { path: Seq<char> },
    ScanThemes { dir: Seq<char> },
    RunScript { interpreter: Seq<char>, path: Seq<char> },
    WriteState { path: Seq<char>, theme: Seq<char> },
    SendSignal { program: Seq<char>, arguments: Seq<Seq<char>> },
    Finish { error: Option<ErrorView> },
}

impl DeepView for Request {
    type V = RequestView;

    open spec fn deep_view(&self) -> RequestView {
        match self {
            Request::ReadConfig { path } => RequestView::ReadConfig { path: path@ },
            Request::ReadState { path } => RequestView::ReadState { path: path@ },
            Request::ScanThemes { dir } => RequestView::ScanThemes { dir: dir@ },
            Request::RunScript { interpreter, path } => RequestView::RunScript {
                interpreter: interpreter@,
                path: path@,
            },
            Request::WriteState { path, theme } => RequestView::WriteState {
                path: path@,
                theme: theme@,
            },
            Request::SendSignal { program, arguments } => RequestView::SendSignal {
                program: program@,
                arguments: arguments.deep_view(),
            },
            Request::Finish { error } => RequestView::Finish { error: error.deep_view() },
        }
    }
}

impl View for Request {
    type V = RequestView;

    open spec fn view(&self) -> RequestView {
        self.deep_view()
    }
}

/// What a command has to say after each report: lines for the log, lines for
/// the standard output, and what is to be done next.
#[derive(Debug, Clone, PartialEq, Eq)]
pub struct Step {
    pub notices: Vec<Notice>,
    pub output: Vec<String>,
    pub request: Request,
}

/// A `Step` with its texts as sequences of characters.
pub struct StepView {
    pub notices: Seq<NoticeView>,
    pub output: Seq<Seq<char>>,
    pub request: RequestView,
}

impl DeepView for Step {
    type V = StepView;

    open spec fn deep_view(&self) -> StepView {
        StepView {
            notices: self.notices.deep_view(),
            output: self.output.deep_view(),
            request: self.request@,
        }
    }
}

impl View for Step {
    type V = StepView;

    open spec fn view(&self) -> StepView {
        self.deep_view()
    }
}

/// The program that runs the themes' scripts.
pub open spec fn interpreter() -> Seq<char> {
    "bash"@
}

/// The request to run the script at `path`.
pub open spec fn run_script(path: Seq<char>) -> RequestView {
    RequestView::RunScript { interpreter: interpreter(), path }
}

impl Request {
    /// The request to run the script at `path`, if there is one.
    pub fn script(path: String) -> (request: Request)
        ensures
            request@ == run_script(path@),
    {
        Request::RunScript { interpreter: "bash".to_owned(), path }
    }
}

/// Adds a line to the lines for the log.
pub(crate) fn say(notices: &mut Vec<Notice>, notice: Notice)
    ensures
        final(notices).deep_view() == old(notices).deep_view().push(notice@),
{
    notices.push(notice);
    assert(notices.deep_view() =~= old(notices).deep_view().push(notice@));
}

/// No lines for the log.
pub(crate) fn silence() -> (notices: Vec<Notice>)
    ensures
        notices.deep_view() == Seq::<NoticeView>::empty(),
{
    let notices: Vec<Notice> = Vec::new();
    assert(notices.deep_view() =~= Seq::<NoticeView>::empty());
    notices
}

/// No lines of text.
pub(crate) fn no_lines() -> (lines: Vec<String>)
    ensures
        lines.deep_view() == Seq::<Seq<char>>::empty(),
{
    let lines: Vec<String> = Vec::new();
    assert(lines.deep_view() =~= Seq::<Seq<char>>::empty());
    lines
}

/// Adds a line to lines of text.
pub(crate) fn add_line(lines: &mut Vec<String>, line: String)
    ensures
        final(lines).deep_view() == old(lines).deep_view().push(line@),
{
    lines.push(line);
    assert(lines.deep_view() =~= old(lines).deep_view().push(line@));
}

} // verus!
