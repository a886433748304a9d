//! One command from start to end. A session asks for one thing at a time to
//! be read, run or written, is told what came of it, and decides what is next.
//! Activating a theme goes in a fixed order: the script of the `off` theme
//! where another theme is active, the script of the new theme, the record of
//! the new theme, then the signal to the shells, one process name after
//! another. Scripts and signals may fail without stopping anything; a file
//! that cannot be read or written ends the command.

use vstd::prelude::*;
use crate::config::{
    loaded,
    resolved,
    text_result,
    Config,
    ConfigSource,
    ConfigSourceView,
    ConfigView,
};
use crate::context::{AppView, SkinnerApp};
use crate::error::{ErrorView, SkinnerError};
use crate::listing::{list_lines, listing};
use crate::notice::{error, info, Level, Notice, NoticeView};
use crate::paths::{join, path_join};
use crate::registry::{themes_of, ScanResult, ScanView};
use crate::request::{
    add_line,
    no_lines,
    run_script,
    say,
    silence,
    Request,
    RequestView,
    Step,
    StepView,
};
use crate::scripts::{
    global_script_path,
    report_script,
    script_notices,
    script_path,
    ScriptOutcome,
    ScriptView,
};
use crate::setup::{bash_setup, fish_setup};
use crate::signals::{following, signal_notices, signal_request, Shell, SignalOutcome, SignalView};
use crate::state::{
    current_theme,
    off,
    write_state,
    StateSource,
    StateView,
    WriteOutcome,
    WriteView,
};
use crate::text::same_text;

verus! {

/// What the user asks for.
#[derive(Debug, Clone, PartialEq, Eq)]
pub enum Command {
    /// Show the themes, with a mark at the active one.
    List,
    /// Make `theme` the active theme; `light` and `dark` stand for the themes
    /// that the configuration names, and `off` for none.
    Activate { theme: String },
    /// Make no theme the active one.
    Deactivate,
    /// Show the lines that a shell needs at start-up, for fish or for bash and zsh.
    Setup { fish: bool },
}

/// A `Command` with its text as a sequence of characters.
pub enum CommandView {
    List,
    Activate { theme: Seq<char> },
    Deactivate,
    Setup { fish: bool },
}

impl DeepView for Command {
    type V = CommandView;

    open spec fn deep_view(&self) -> CommandView {
        match self {
            Command::List => CommandView::List,
            Command::Activate { theme } => CommandView::Activate { theme: theme@ },
            Command::Deactivate => CommandView::Deactivate,
            Command::Setup { fish } => CommandView::Setup { fish: *fish },
        }
    }
}

impl View for Command {
    type V = CommandView;

    open spec fn view(&self) -> CommandView {
        self.deep_view()
    }
}

/// What came of the last request.
#[derive(Debug, Clone, PartialEq, Eq)]
pub enum Event {
    /// The configuration file was looked for.
    Config(ConfigSource),
    /// The record of the active theme was looked for.
    State(StateSource),
    /// The themes' directory was looked through.
    Themes(ScanResult),
    /// A script was to be run.
    Script(ScriptOutcome),
    /// The record of the active theme was to be written.
    Written(WriteOutcome),
    /// A signal was to be sent.
    Signal(SignalOutcome),
}

/// An `Event` with its texts as sequences of characters.
pub enum EventView {
    Config(ConfigSourceView),
    State(StateView),
    Themes(ScanView),
    Script(ScriptView),
    Written(WriteView),
    Signal(SignalView),
}

impl DeepView for Event {
    type V = EventView;

    open spec fn deep_view(&self) -> EventView {
        match self {
            Event::Config(source) => EventView::Config(source@),
            Event::State(source) => EventView::State(source@),
            Event::Themes(scan) => EventView::Themes(scan@),
            Event::Script(outcome) => EventView::Script(outcome@),
            Event::Written(outcome) => EventView::Written(outcome@),
            Event::Signal(outcome) => EventView::Signal(outcome@),
        }
    }
}

impl View for Event {
    type V = EventView;

    open spec fn view(&self) -> EventView {
        self.deep_view()
    }
}

/// How far a command has come: what it is waiting to hear of.
#[derive(Debug, Clone, Copy, PartialEq, Eq)]
pub enum Phase {
    /// The configuration.
    Config,
    /// The active theme, before a theme other than `off` is activated.
    State,
    /// The script of the `off` theme, run to undo the active theme.
    Teardown,
    /// The script of the theme that is being activated.
    Setup,
    /// The writing of the new active theme.
    Persist,
    /// The signal to the processes of `shell`.
    Broadcast { shell: Shell },
    /// The entries of the themes' directory.
    Themes,
    /// The active theme, to mark it in the list.
    Marking,
    /// Nothing: the command is over.
    Finished,
}

/// A command on its way.
#[derive(Debug, Clone, PartialEq, Eq)]
pub struct Session {
    /// The places the program works with.
    pub app: SkinnerApp,
    /// What the user asked for.
    pub command: Command,
    /// What the command is waiting to hear of.
    pub phase: Phase,
    /// The settings, once the configuration is known.
    pub config: Config,
    /// The theme that is being activated, once it is known.
    pub target: String,
    /// The script that is being run, while one is.
    pub script: String,
    /// The themes to list, once they are known.
    pub themes: Vec<String>,
    /// Why the command failed, if it did.
    pub error: Option<SkinnerError>,
}

/// A `Session` with its texts as sequences of characters.
pub struct SessionView {
    pub app: AppView,
    pub command: CommandView,
    pub phase: Phase,
    pub config: ConfigView,
    pub target: Seq<char>,
    pub script: Seq<char>,
    pub themes: Seq<Seq<char>>,
    pub error: Option<ErrorView>,
}

impl DeepView for Session {
    type V = SessionView;

    open spec fn deep_view(&self) -> SessionView {
        SessionView {
            app: self.app@,
            command: self.command@,
            phase: self.phase,
            config: self.config@,
            target: self.target@,
            script: self.script@,
            themes: self.themes.deep_view(),
            error: self.error.deep_view(),
        }
    }
}

impl View for Session {
    type V = SessionView;

    open spec fn view(&self) -> SessionView {
        self.deep_view()
    }
}

/// The settings of a session that does not know its configuration yet.
pub open spec fn blank() -> ConfigView {
    ConfigView { themes: Seq::empty(), signal: Seq::empty(), light: None, dark: None }
}

/// The session that `command` starts with: it waits for the configuration.
pub open spec fn started(app: AppView, command: CommandView) -> SessionView {
    SessionView {
        app,
        command,
        phase: Phase::Config,
        config: blank(),
        target: Seq::empty(),
        script: Seq::empty(),
        themes: Seq::empty(),
        error: None,
    }
}

/// The first step of every command: the configuration is to be read.
pub open spec fn first_step(app: AppView) -> StepView {
    StepView {
        notices: seq![info("Using config file: "@ + app.config_file)],
        output: seq![],
        request: RequestView::ReadConfig { path: app.config_file },
    }
}

/// What a session is waiting for to be done.
pub open spec fn pending(s: SessionView) -> RequestView {
    match s.phase {
        Phase::Config => RequestView::ReadConfig { path: s.app.config_file },
        Phase::State => RequestView::ReadState { path: s.app.current_theme_file },
        Phase::Teardown => run_script(s.script),
        Phase::Setup => run_script(s.script),
        Phase::Persist => write_state(s.app.current_theme_file, s.target),
        Phase::Broadcast { shell } => signal_request(s.config.signal, shell),
        Phase::Themes => RequestView::ScanThemes { dir: s.config.themes },
        Phase::Marking => RequestView::ReadState { path: s.app.current_theme_file },
        Phase::Finished => RequestView::Finish { error: s.error },
    }
}

/// The session `s` goes on: it says `notices` and `output` and asks for what it waits for.
pub open spec fn waiting(s: SessionView, notices: Seq<NoticeView>, output: Seq<Seq<char>>) -> (
    SessionView,
    StepView,
) {
    (s, StepView { notices, output, request: pending(s) })
}

/// The line for the log that tells of the failure of a command.
pub open spec fn failure_notice(failure: ErrorView) -> NoticeView {
    error("Error: "@ + failure.message())
}

/// The session `s` ends: it says `notices` and `output`, then tells of its
/// failure if `failure` is there, and asks for nothing more.
pub open spec fn finished(
    s: SessionView,
    notices: Seq<NoticeView>,
    output: Seq<Seq<char>>,
    failure: Option<ErrorView>,
) -> (SessionView, StepView) {
    waiting(
        SessionView { phase: Phase::Finished, error: failure, ..s },
        match failure {
            Some(failure) => notices.push(failure_notice(failure)),
            None => notices,
        },
        output,
    )
}

/// The session `s` turns to the script of the theme to activate, which was
/// looked up as `script`: it asks for the script to be run, or ends where the
/// theme's directory names none.
pub open spec fn entering_setup(
    s: SessionView,
    script: Result<Seq<char>, ErrorView>,
    notices: Seq<NoticeView>,
) -> (SessionView, StepView) {
    match script {
        Ok(path) => waiting(SessionView { phase: Phase::Setup, script: path, ..s }, notices, seq![]),
        Err(failure) => finished(s, notices, seq![], Some(failure)),
    }
}

/// The session `s` turns to the script of the theme to activate, which lies
/// in the theme's directory below the themes' directory.
pub open spec fn setting_up(s: SessionView, notices: Seq<NoticeView>) -> (SessionView, StepView) {
    entering_setup(s, script_path(path_join(s.config.themes, s.target)), notices)
}

/// The session `s` turns to undoing the active theme by the script of the
/// `off` theme, which was looked up as `script`: it says so and asks for the
/// script to be run, or ends where the theme's directory names none.
pub open spec fn entering_teardown(
    s: SessionView,
    script: Result<Seq<char>, ErrorView>,
    notices: Seq<NoticeView>,
) -> (SessionView, StepView) {
    match script {
        Ok(path) => waiting(
            SessionView { phase: Phase::Teardown, script: path, ..s },
            notices.push(info("Deactivating current theme..."@)),
            seq![],
        ),
        Err(failure) => finished(s, notices, seq![], Some(failure)),
    }
}

/// The session `s` turns to undoing the active theme: the script of the
/// `off` theme lies in that theme's directory below the themes' directory.
pub open spec fn tearing_down(s: SessionView, notices: Seq<NoticeView>) -> (
    SessionView,
    StepView,
) {
    entering_teardown(s, script_path(path_join(s.config.themes, off())), notices)
}

/// The session `s`, which knows its settings, turns to activating what
/// `requested` stands for. A name that stands for no theme ends it. For a
/// theme other than `off` it first asks which theme is active; for `off` it
/// turns to the script at once.
pub open spec fn activating(s: SessionView, requested: Seq<char>, notices: Seq<NoticeView>) -> (
    SessionView,
    StepView,
) {
    match resolved(s.config, requested) {
        Err(failure) => finished(s, notices, seq![], Some(failure)),
        Ok(target) => {
            let aimed = SessionView { target, ..s };
            if target != off() {
                waiting(SessionView { phase: Phase::State, ..aimed }, notices, seq![])
            } else {
                setting_up(aimed, notices)
            }
        },
    }
}

/// The lines for the log once the configuration file was looked for.
pub open spec fn config_notices(source: ConfigSourceView) -> Seq<NoticeView> {
    if source is Absent {
        seq![info("Config file not found, using defaults"@)]
    } else {
        seq![]
    }
}

/// The session `s` hears of the configuration. A file that cannot be read
/// or understood ends it. Otherwise it has its settings and turns to its
/// command: the lines for the shell are shown at once, a list starts with the
/// themes' directory, and the two other commands activate a theme.
pub open spec fn configured(s: SessionView, source: ConfigSourceView) -> (SessionView, StepView) {
    let notices = config_notices(source);
    match loaded(s.app.home, source) {
        Err(failure) => finished(s, notices, seq![], Some(failure)),
        Ok(config) => {
            let set = SessionView { config, ..s };
            match s.command {
                CommandView::Setup { fish } => finished(
                    set,
                    notices,
                    seq![
                        if fish {
                            fish_setup(config.signal)
                        } else {
                            bash_setup(config.signal)
                        },
                    ],
                    None,
                ),
                CommandView::List => waiting(
                    SessionView { phase: Phase::Themes, ..set },
                    notices,
                    seq![],
                ),
                CommandView::Activate { theme } => activating(set, theme, notices),
                CommandView::Deactivate => activating(set, off(), notices),
            }
        },
    }
}

/// The session `s` hears which theme is active, before it activates a theme
/// other than `off`. Where a theme is active, that theme is undone first;
/// where none is, the session turns to the new theme's script at once.
pub open spec fn state_known(s: SessionView, source: StateView) -> (SessionView, StepView) {
    match current_theme(source) {
        Err(failure) => finished(s, seq![], seq![], Some(failure)),
        Ok(current) => if current != off() {
            tearing_down(s, seq![])
        } else {
            setting_up(s, seq![])
        },
    }
}

/// The session `s` hears of the script of the `off` theme. Whatever came of
/// it, the session turns to the script of the theme to activate.
pub open spec fn torn_down(s: SessionView, outcome: ScriptView) -> (SessionView, StepView) {
    setting_up(s, script_notices(s.script, outcome).push(info("Theme deactivated"@)))
}

/// The session `s` hears of the script of the theme to activate. Whatever
/// came of it, the theme is to be put on record as the active one.
pub open spec fn set_up(s: SessionView, outcome: ScriptView) -> (SessionView, StepView) {
    waiting(SessionView { phase: Phase::Persist, ..s }, script_notices(s.script, outcome), seq![])
}

/// The session `s` hears of the writing of the record. Once the record is
/// written the shells are told, the first of them first. A record that could
/// not be written ends the session.
pub open spec fn persisted(s: SessionView, outcome: WriteView) -> (SessionView, StepView) {
    match outcome {
        WriteView::Written => waiting(
            SessionView { phase: Phase::Broadcast { shell: Shell::Zsh }, ..s },
            seq![info("Wrote theme to "@ + s.app.current_theme_file)],
            seq![],
        ),
        WriteView::Failed { detail } => finished(
            s,
            seq![],
            seq![],
            Some(ErrorView::Io { detail }),
        ),
    }
}

/// The session `s` hears of the signal to the processes of `shell`.
/// Whatever came of it, the next shell has its turn, and after the last shell
/// the session ends well.
pub open spec fn signalled(s: SessionView, shell: Shell, outcome: SignalView) -> (
    SessionView,
    StepView,
) {
    let notices = signal_notices(s.config.signal, shell, outcome);
    match following(shell) {
        Some(next) => waiting(
            SessionView { phase: Phase::Broadcast { shell: next }, ..s },
            notices,
            seq![],
        ),
        None => finished(s, notices.push(info("Activated theme: "@ + s.target)), seq![], None),
    }
}

/// The lines for the log once the themes' directory was looked for.
pub open spec fn scan_notices(dir: Seq<char>, scan: ScanView) -> Seq<NoticeView> {
    if scan is Missing {
        seq![info("Themes directory "@ + dir + " not found"@)]
    } else {
        seq![]
    }
}

/// The session `s` hears of the themes' directory. A directory that cannot
/// be read ends it. Otherwise it has the themes to list and asks which theme
/// is active.
pub open spec fn scanned(s: SessionView, scan: ScanView) -> (SessionView, StepView) {
    let notices = scan_notices(s.config.themes, scan);
    match themes_of(scan) {
        Err(failure) => finished(s, notices, seq![], Some(failure)),
        Ok(themes) => waiting(SessionView { phase: Phase::Marking, themes, ..s }, notices, seq![]),
    }
}

/// The session `s` hears which theme is active, to list the themes. It
/// shows the list with the active theme marked, or says that there are no
/// themes, and ends.
pub open spec fn marked(s: SessionView, source: StateView) -> (SessionView, StepView) {
    match current_theme(source) {
        Err(failure) => finished(s, seq![], seq![], Some(failure)),
        Ok(current) => if s.themes.len() == 0 {
            finished(s, seq![info("No themes found"@)], seq![], None)
        } else {
            finished(s, seq![], listing(s.themes, current), None)
        },
    }
}

/// What becomes of the session `s` when it hears `event`, and what it says
/// and asks for then. An event that does not answer what the session waits
/// for changes nothing: the session asks again.
pub open spec fn next(s: SessionView, event: EventView) -> (SessionView, StepView) {
    match (s.phase, event) {
        (Phase::Config, EventView::Config(source)) => configured(s, source),
        (Phase::State, EventView::State(source)) => state_known(s, source),
        (Phase::Teardown, EventView::Script(outcome)) => torn_down(s, outcome),
        (Phase::Setup, EventView::Script(outcome)) => set_up(s, outcome),
        (Phase::Persist, EventView::Written(outcome)) => persisted(s, outcome),
        (Phase::Broadcast { shell }, EventView::Signal(outcome)) => signalled(s, shell, outcome),
        (Phase::Themes, EventView::Themes(scan)) => scanned(s, scan),
        (Phase::Marking, EventView::State(source)) => marked(s, source),
        _ => waiting(s, seq![], seq![]),
    }
}

/// The views of a session and of the step that it takes.
pub open spec fn outcome_view(after: (Session, Step)) -> (SessionView, StepView) {
    (after.0@, after.1@)
}

/// The line for the log that tells of the failure of a command.
pub fn failure_report(failure: &SkinnerError) -> (notice: Notice)
    ensures
        notice@ == failure_notice(failure@),
{
    let mut message = "Error: ".to_owned();
    message.append(failure.message().as_str());
    Notice::new(Level::Error, message)
}

/// The status with which the program ends: zero after a command that ended
/// well, one after a failure.
pub open spec fn status_for(failure: Option<ErrorView>) -> i32 {
    if failure is Some {
        1
    } else {
        0
    }
}

/// The status with which the program ends: zero after a command that ended
/// well, one after a failure.
pub fn exit_code(failure: &Option<SkinnerError>) -> (code: i32)
    ensures
        code == status_for(failure.deep_view()),
{
    match failure {
        Some(_) => 1,
        None => 0,
    }
}

impl Session {
    /// What this session is waiting for to be done.
    pub fn pending(&self) -> (request: Request)
        ensures
            request@ == pending(self@),
    {
        match self.phase {
            Phase::Config => Request::ReadConfig { path: self.app.config_file.clone() },
            Phase::State => Request::ReadState { path: self.app.current_theme_file.clone() },
            Phase::Teardown => Request::script(self.script.clone()),
            Phase::Setup => Request::script(self.script.clone()),
            Phase::Persist => self.app.set_current_theme(self.target.as_str()),
            Phase::Broadcast { shell } => shell.signal(self.config.signal.as_str()),
            Phase::Themes => Request::ScanThemes { dir: self.config.themes.clone() },
            Phase::Marking => Request::ReadState { path: self.app.current_theme_file.clone() },
            Phase::Finished => Request::Finish {
                error: match &self.error {
                    Some(error) => Some(error.duplicate()),
                    None => None,
                },
            },
        }
    }

    /// Whether the command is over.
    pub fn is_finished(&self) -> (over: bool)
        ensures
            over == (self@.phase is Finished),
    {
        match self.phase {
            Phase::Finished => true,
            _ => false,
        }
    }

    fn wait(self, notices: Vec<Notice>, output: Vec<String>) -> (after: (Session, Step))
        ensures
            outcome_view(after) == waiting(self@, notices.deep_view(), output.deep_view()),
    {
        let request = self.pending();
        (self, Step { notices, output, request })
    }

    fn finish(
        self,
        notices: Vec<Notice>,
        output: Vec<String>,
        failure: Option<SkinnerError>,
    ) -> (after: (Session, Step))
        ensures
            outcome_view(after) == finished(
                self@,
                notices.deep_view(),
                output.deep_view(),
                failure.deep_view(),
            ),
    {
        let mut notices = notices;
        match &failure {
            Some(failure) => {
                say(&mut notices, failure_report(failure));
            },
            None => {},
        }
        let done = Session { phase: Phase::Finished, error: failure, ..self };
        done.wait(notices, output)
    }

    /// Turns to the script of the theme to activate, which was looked up as
    /// `script`: the session asks for the script to be run, or ends where the
    /// theme's directory names none.
    pub fn enter_setup(
        self,
        script: Result<String, SkinnerError>,
        notices: Vec<Notice>,
    ) -> (after: (Session, Step))
        ensures
            outcome_view(after) == entering_setup(
                self@,
                text_result(script),
                notices.deep_view(),
            ),
    {
        match script {
            Ok(path) => {
                let ready = Session { phase: Phase::Setup, script: path, ..self };
                ready.wait(notices, no_lines())
            },
            Err(failure) => self.finish(notices, no_lines(), Some(failure)),
        }
    }

    /// Turns to undoing the active theme by the script of the `off` theme,
    /// which was looked up as `script`: the session says so and asks for the
    /// script to be run, or ends where the theme's directory names none.
    pub fn enter_teardown(
        self,
        script: Result<String, SkinnerError>,
        notices: Vec<Notice>,
    ) -> (after: (Session, Step))
        ensures
            outcome_view(after) == entering_teardown(
                self@,
                text_result(script),
                notices.deep_view(),
            ),
    {
        match script {
            Ok(path) => {
                let mut notices = notices;
                say(
                    &mut notices,
                    Notice::new(Level::Info, "Deactivating current theme...".to_owned()),
                );
                let ready = Session { phase: Phase::Teardown, script: path, ..self };
                ready.wait(notices, no_lines())
            },
            Err(failure) => self.finish(notices, no_lines(), Some(failure)),
        }
    }

    fn set_up(self, notices: Vec<Notice>) -> (after: (Session, Step))
        ensures
            outcome_view(after) == setting_up(self@, notices.deep_view()),
    {
        let dir = join(self.config.themes.as_str(), self.target.as_str());
        let script = global_script_path(dir.as_str());
        self.enter_setup(script, notices)
    }

    fn tear_down(self, notices: Vec<Notice>) -> (after: (Session, Step))
        ensures
            outcome_view(after) == tearing_down(self@, notices.deep_view()),
    {
        let dir = join(self.config.themes.as_str(), "off");
        let script = global_script_path(dir.as_str());
        self.enter_teardown(script, notices)
    }

    fn activate(self, requested: &str, notices: Vec<Notice>) -> (after: (Session, Step))
        ensures
            outcome_view(after) == activating(self@, requested@, notices.deep_view()),
    {
        match self.config.resolve(requested) {
            Err(failure) => self.finish(notices, no_lines(), Some(failure)),
            Ok(target) => {
                let other = !same_text(target.as_str(), "off");
                let aimed = Session { target, ..self };
                if other {
                    let asking = Session { phase: Phase::State, ..aimed };
                    asking.wait(notices, no_lines())
                } else {
                    aimed.set_up(notices)
                }
            },
        }
    }

    fn configured(self, source: ConfigSource) -> (after: (Session, Step))
        ensures
            outcome_view(after) == configured(self@, source@),
    {
        let mut notices = silence();
        match &source {
            ConfigSource::Absent => {
                say(
                    &mut notices,
                    Notice::new(Level::Info, "Config file not found, using defaults".to_owned()),
                );
            },
            _ => {},
        }
        proof {
            assert(notices.deep_view() =~= config_notices(source@));
        }
        match self.app.load_config(source) {
            Err(failure) => self.finish(notices, no_lines(), Some(failure)),
            Ok(config) => {
                let signal = config.signal.clone();
                let set = Session { config, ..self };
                match &set.command {
                    Command::Setup { fish } => {
                        let lines = if *fish {
                            set.app.setup_fish(signal)
                        } else {
                            set.app.setup_bash(signal)
                        };
                        match lines {
                            Ok(text) => {
                                let mut output = no_lines();
                                add_line(&mut output, text);
                                proof {
                                    assert(output.deep_view() =~= seq![text@]);
                                }
                                set.finish(notices, output, None)
                            },
                            Err(failure) => set.finish(notices, no_lines(), Some(failure)),
                        }
                    },
                    Command::List => {
                        let scanning = Session { phase: Phase::Themes, ..set };
                        scanning.wait(notices, no_lines())
                    },
                    Command::Activate { theme } => {
                        let requested = theme.clone();
                        set.activate(requested.as_str(), notices)
                    },
                    Command::Deactivate => set.activate("off", notices),
                }
            },
        }
    }

    fn state_known(self, source: StateSource) -> (after: (Session, Step))
        ensures
            outcome_view(after) == state_known(self@, source@),
    {
        match self.app.get_current_theme(source) {
            Err(failure) => self.finish(silence(), no_lines(), Some(failure)),
            Ok(current) => {
                if !same_text(current.as_str(), "off") {
                    self.tear_down(silence())
                } else {
                    self.set_up(silence())
                }
            },
        }
    }

    fn torn_down(self, outcome: ScriptOutcome) -> (after: (Session, Step))
        ensures
            outcome_view(after) == torn_down(self@, outcome@),
    {
        let mut notices = report_script(self.script.as_str(), &outcome);
        say(&mut notices, Notice::new(Level::Info, "Theme deactivated".to_owned()));
        self.set_up(notices)
    }

    fn script_ran(self, outcome: ScriptOutcome) -> (after: (Session, Step))
        ensures
            outcome_view(after) == set_up(self@, outcome@),
    {
        let notices = report_script(self.script.as_str(), &outcome);
        let writing = Session { phase: Phase::Persist, ..self };
        writing.wait(notices, no_lines())
    }

    fn persisted(self, outcome: WriteOutcome) -> (after: (Session, Step))
        ensures
            outcome_view(after) == persisted(self@, outcome@),
    {
        match outcome {
            WriteOutcome::Written => {
                let mut message = "Wrote theme to ".to_owned();
                message.append(self.app.current_theme_file.as_str());
                let mut notices = silence();
                say(&mut notices, Notice::new(Level::Info, message));
                proof {
                    assert(notices.deep_view() =~= seq![
                        info("Wrote theme to "@ + self@.app.current_theme_file),
                    ]);
                }
                let telling = Session { phase: Phase::Broadcast { shell: Shell::first() }, ..self };
                telling.wait(notices, no_lines())
            },
            WriteOutcome::Failed { detail } => self.finish(
                silence(),
                no_lines(),
                Some(SkinnerError::Io { detail }),
            ),
        }
    }

    fn signalled(self, shell: Shell, outcome: SignalOutcome) -> (after: (Session, Step))
        ensures
            outcome_view(after) == signalled(self@, shell, outcome@),
    {
        let mut notices = shell.report(self.config.signal.as_str(), &outcome);
        match shell.next() {
            Some(next) => {
                let telling = Session { phase: Phase::Broadcast { shell: next }, ..self };
                telling.wait(notices, no_lines())
            },
            None => {
                let mut message = "Activated theme: ".to_owned();
                message.append(self.target.as_str());
                say(&mut notices, Notice::new(Level::Info, message));
                self.finish(notices, no_lines(), None)
            },
        }
    }

    fn scanned(self, scan: ScanResult) -> (after: (Session, Step))
        ensures
            outcome_view(after) == scanned(self@, scan@),
    {
        let mut notices = silence();
        match &scan {
            ScanResult::Missing => {
                let mut message = "Themes directory ".to_owned();
                message.append(self.config.themes.as_str());
                message.append(" not found");
                say(&mut notices, Notice::new(Level::Info, message));
            },
            _ => {},
        }
        proof {
            assert(notices.deep_view() =~= scan_notices(self@.config.themes, scan@));
        }
        match self.app.list_themes(scan) {
            Err(failure) => self.finish(notices, no_lines(), Some(failure)),
            Ok(themes) => {
                let marking = Session { phase: Phase::Marking, themes, ..self };
                marking.wait(notices, no_lines())
            },
        }
    }

    fn marked(self, source: StateSource) -> (after: (Session, Step))
        ensures
            outcome_view(after) == marked(self@, source@),
    {
        match self.app.get_current_theme(source) {
            Err(failure) => self.finish(silence(), no_lines(), Some(failure)),
            Ok(current) => {
                if self.themes.len() == 0 {
                    let mut notices = silence();
                    say(&mut notices, Notice::new(Level::Info, "No themes found".to_owned()));
                    proof {
                        assert(notices.deep_view() =~= seq![info("No themes found"@)]);
                    }
                    self.finish(notices, no_lines(), None)
                } else {
                    let lines = list_lines(&self.themes, current.as_str());
                    self.finish(silence(), lines, None)
                }
            },
        }
    }

    /// Tells the session what came of its last request. The session says
    /// what there is to say and asks for what is next. An event that does not
    /// answer what the session waits for changes nothing: it asks again.
    pub fn advance(self, event: Event) -> (after: (Session, Step))
        ensures
            outcome_view(after) == next(self@, event@),
    {
        match (self.phase, event) {
            (Phase::Config, Event::Config(source)) => self.configured(source),
            (Phase::State, Event::State(source)) => self.state_known(source),
            (Phase::Teardown, Event::Script(outcome)) => self.torn_down(outcome),
            (Phase::Setup, Event::Script(outcome)) => self.script_ran(outcome),
            (Phase::Persist, Event::Written(outcome)) => self.persisted(outcome),
            (Phase::Broadcast { shell }, Event::Signal(outcome)) => self.signalled(
                shell,
                outcome,
            ),
            (Phase::Themes, Event::Themes(scan)) => self.scanned(scan),
            (Phase::Marking, Event::State(source)) => self.marked(source),
            (_, _) => self.wait(silence(), no_lines()),
        }
    }
}

impl SkinnerApp {
    /// Starts on `command`. Every command begins by reading the
    /// configuration; what follows is decided as the answers come in.
    pub fn run(&self, command: Command) -> (start: (Session, Step))
        ensures
            start.0@ == started(self@, command@),
            start.1@ == first_step(self@),
    {
        let mut message = "Using config file: ".to_owned();
        message.append(self.config_file.as_str());
        let mut notices = silence();
        say(&mut notices, Notice::new(Level::Info, message));
        let session = Session {
            app: self.duplicate(),
            command,
            phase: Phase::Config,
            config: Config {
                themes: String::new(),
                signal: String::new(),
                light: None,
                dark: None,
            },
            target: String::new(),
            script: String::new(),
            themes: no_lines(),
            error: None,
        };
        let request = session.pending();
        proof {
            assert(notices.deep_view() =~= first_step(self@).notices);
        }
        (session, Step { notices, output: no_lines(), request })
    }
}

} // verus!
