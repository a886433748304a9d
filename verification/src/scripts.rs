//! The script that a theme runs once for all shells. It lies in the theme's
//! directory and is named after it. That there is none, or that it fails, is
//! worth a line in the log and stops nothing.

use vstd::prelude::*;
use crate::context::SkinnerApp;
use crate::config::text_result;
use crate::error::{ErrorView, SkinnerError};
use crate::notice::{error, info, Level, Notice, NoticeView};
use crate::paths::{file_name, join, path_file_name, path_join};
use crate::request::{run_script, say, silence, Request, RequestView};

verus! {

/// What became of running a script.
#[derive(Debug, Clone, PartialEq, Eq)]
pub enum ScriptOutcome {
    /// There is no such script.
    Missing,
    /// The script ran and ended well.
    Succeeded,
    /// The script ran and ended badly; `stderr` holds what it wrote to its error output.
    Failed { stderr: String },
    /// The script is there and could not be started.
    NotStarted { detail: String },
}

/// A `ScriptOutcome` with its texts as sequences of characters.
pub enum ScriptView {
    Missing,
    Succeeded,
    Failed { stderr: Seq<char> },
    NotStarted { detail: Seq<char> },
}

impl DeepView for ScriptOutcome {
    type V = ScriptView;

    open spec fn deep_view(&self) -> ScriptView {
        match self {
            ScriptOutcome::Missing => ScriptView::Missing,
            ScriptOutcome::Succeeded => ScriptView::Succeeded,
            ScriptOutcome::Failed { stderr } => ScriptView::Failed { stderr: stderr@ },
            ScriptOutcome::NotStarted { detail } => ScriptView::NotStarted { detail: detail@ },
        }
    }
}

impl View for ScriptOutcome {
    type V = ScriptView;

    open spec fn view(&self) -> ScriptView {
        self.deep_view()
    }
}

/// The name of the script that the theme `theme` runs once for all shells.
pub open spec fn global_name(theme: Seq<char>) -> Seq<char> {
    theme + "-global.sh"@
}

/// The name of the script of the theme `theme` that each shell sources.
pub open spec fn per_shell_name(theme: Seq<char>) -> Seq<char> {
    theme + "-per-shell.sh"@
}

/// The name of the script to run for a theme whose directory has the last
/// component `name`; without a last component there is no such script.
pub open spec fn script_named(name: Option<Seq<char>>) -> Result<Seq<char>, ErrorView> {
    match name {
        Some(name) => Ok(global_name(name)),
        None => Err(ErrorView::InvalidThemeDirectory),
    }
}

/// The path of the script to run for the theme that lies in `theme_dir`: in
/// that directory, named after its last component.
pub open spec fn script_in(theme_dir: Seq<char>) -> Option<Seq<char>> {
    match path_file_name(theme_dir) {
        Some(name) => Some(path_join(theme_dir, global_name(name))),
        None => None,
    }
}

/// The path of the script to run for the theme `theme` below the directory `themes`.
pub open spec fn script_of(themes: Seq<char>, theme: Seq<char>) -> Option<Seq<char>> {
    script_in(path_join(themes, theme))
}

/// The path of the script to run for the theme in `theme_dir`, or the failure
/// where the directory names no script.
pub open spec fn script_path(theme_dir: Seq<char>) -> Result<Seq<char>, ErrorView> {
    match script_in(theme_dir) {
        Some(path) => Ok(path),
        None => Err(ErrorView::InvalidThemeDirectory),
    }
}

/// What running the script for the theme in `theme_dir` starts with: the
/// request to run it, or a failure where the directory names no script.
pub open spec fn script_request(theme_dir: Seq<char>) -> Result<RequestView, ErrorView> {
    match script_in(theme_dir) {
        Some(path) => Ok(run_script(path)),
        None => Err(ErrorView::InvalidThemeDirectory),
    }
}

/// The lines for the log after the script at `path` was to be run.
pub open spec fn script_notices(path: Seq<char>, outcome: ScriptView) -> Seq<NoticeView> {
    match outcome {
        ScriptView::Missing => seq![info("Global script not found: "@ + path)],
        ScriptView::Succeeded => seq![],
        ScriptView::Failed { stderr } => seq![error("Script execution failed: "@ + stderr)],
        ScriptView::NotStarted { detail } => seq![error("Script execution failed: "@ + detail)],
    }
}

/// The view of a result that holds a request or a failure.
pub open spec fn request_result(result: Result<Request, SkinnerError>) -> Result<
    RequestView,
    ErrorView,
> {
    match result {
        Ok(request) => Ok(request@),
        Err(error) => Err(error@),
    }
}

/// The name of the script that the theme `theme` runs once for all shells.
pub fn global_script_name(theme: &str) -> (name: String)
    ensures
        name@ == global_name(theme@),
{
    let mut name = theme.to_owned();
    name.append("-global.sh");
    name
}

/// The name of the script of the theme `theme` that each shell sources.
pub fn per_shell_script_name(theme: &str) -> (name: String)
    ensures
        name@ == per_shell_name(theme@),
{
    let mut name = theme.to_owned();
    name.append("-per-shell.sh");
    name
}

/// The name of the script to run for a theme whose directory has the last
/// component `name`; without a last component there is no such script.
pub fn script_file(name: Option<String>) -> (file: Result<String, SkinnerError>)
    ensures
        text_result(file) == script_named(name.deep_view()),
{
    match name {
        Some(name) => Ok(global_script_name(name.as_str())),
        None => Err(SkinnerError::InvalidThemeDirectory),
    }
}

/// The path of the script to run for the theme that lies in `theme_dir`: in
/// that directory, named after its last component. A directory without a last
/// component names no script, which is a failure.
pub fn global_script_path(theme_dir: &str) -> (path: Result<String, SkinnerError>)
    ensures
        text_result(path) == script_path(theme_dir@),
{
    match script_file(file_name(theme_dir)) {
        Ok(file) => Ok(join(theme_dir, file.as_str())),
        Err(error) => Err(error),
    }
}

/// The lines for the log after the script at `path` was to be run. A script
/// that is missing is worth a note; one that failed or could not be started,
/// an error.
pub fn report_script(path: &str, outcome: &ScriptOutcome) -> (notices: Vec<Notice>)
    ensures
        notices.deep_view() == script_notices(path@, outcome@),
{
    let mut notices = silence();
    match outcome {
        ScriptOutcome::Missing => {
            let mut message = "Global script not found: ".to_owned();
            message.append(path);
            say(&mut notices, Notice::new(Level::Info, message));
        },
        ScriptOutcome::Succeeded => {},
        ScriptOutcome::Failed { stderr } => {
            let mut message = "Script execution failed: ".to_owned();
            message.append(stderr.as_str());
            say(&mut notices, Notice::new(Level::Error, message));
        },
        ScriptOutcome::NotStarted { detail } => {
            let mut message = "Script execution failed: ".to_owned();
            message.append(detail.as_str());
            say(&mut notices, Notice::new(Level::Error, message));
        },
    }
    proof {
        assert(notices.deep_view() =~= script_notices(path@, outcome@));
    }
    notices
}

impl SkinnerApp {
    /// What running the script of the theme in `theme_dir` starts with. The
    /// script lies in that directory and is named after its last component;
    /// the request is to run it if it is there. A directory without a last
    /// component names no script, which is a failure.
    pub fn execute_global_script(&self, theme_dir: &str) -> (request: Result<Request, SkinnerError>)
        ensures
            request_result(request) == script_request(theme_dir@),
    {
        match global_script_path(theme_dir) {
            Ok(path) => Ok(Request::script(path)),
            Err(error) => Err(error),
        }
    }
}

} // verus!
