use skinner::config::ConfigSource;
use skinner::context::SkinnerApp;
use skinner::error::{Alias, SkinnerError};
use skinner::notice::{Level, Notice};
use skinner::registry::{ScanResult, ThemeEntry};
use skinner::request::{Request, Step};
use skinner::scripts::ScriptOutcome;
use skinner::session::{Command, Event, Phase, Session};
use skinner::signals::SignalOutcome;
use skinner::state::{StateSource, WriteOutcome};

const CONFIG_FILE: &str = "/home/u/.config/skinner/skinner.conf";
const STATE_FILE: &str = "/home/u/.config/skinner/current_theme";
const THEMES: &str = "/home/u/.config/skinner/themes";

/// A world that answers every request from what it holds, and keeps what was asked of it.
struct World {
    config: ConfigSource,
    state: StateSource,
    scan: ScanResult,
    scripts: Vec<(String, ScriptOutcome)>,
    write: WriteOutcome,
    signal: SignalOutcome,
    asked: Vec<Request>,
    notices: Vec<Notice>,
    output: Vec<String>,
}

fn world() -> World {
    World {
        config: ConfigSource::Absent,
        state: StateSource::Absent,
        scan: ScanResult::Missing,
        scripts: Vec::new(),
        write: WriteOutcome::Written,
        signal: SignalOutcome::Rejected { stderr: "No matching processes".to_string() },
        asked: Vec::new(),
        notices: Vec::new(),
        output: Vec::new(),
    }
}

fn configured(light: Option<&str>, dark: Option<&str>) -> ConfigSource {
    ConfigSource::Parsed {
        themes: None,
        signal: None,
        light: light.map(|name| name.to_string()),
        dark: dark.map(|name| name.to_string()),
    }
}

fn app() -> SkinnerApp {
    SkinnerApp::new(Some("/home/u".to_string())).unwrap()
}

fn activate(theme: &str) -> Command {
    Command::Activate { theme: theme.to_string() }
}

fn script(theme: &str) -> Request {
    Request::RunScript {
        interpreter: "bash".to_string(),
        path: format!("{}/{}/{}-global.sh", THEMES, theme, theme),
    }
}

fn write(theme: &str) -> Request {
    Request::WriteState { path: STATE_FILE.to_string(), theme: theme.to_string() }
}

fn signals(signal: &str) -> Vec<Request> {
    let names: [&str; 6] = ["zsh", "bash", "fish", "-zsh", "-bash", "-fish"];
    names
        .iter()
        .map(|name| Request::SendSignal {
            program: "killall".to_string(),
            arguments: vec![format!("-{}", signal), "--".to_string(), name.to_string()],
        })
        .collect()
}

fn info(message: &str) -> Notice {
    Notice { level: Level::Info, message: message.to_string() }
}

impl World {
    fn answer(&self, request: &Request) -> Option<Event> {
        match request {
            Request::ReadConfig { .. } => Some(Event::Config(self.config.clone())),
            Request::ReadState { .. } => Some(Event::State(self.state.clone())),
            Request::ScanThemes { .. } => Some(Event::Themes(self.scan.clone())),
            Request::RunScript { path, .. } => {
                let found = self.scripts.iter().find(|(known, _)| known == path);
                Some(Event::Script(match found {
                    Some((_, outcome)) => outcome.clone(),
                    None => ScriptOutcome::Missing,
                }))
            }
            Request::WriteState { .. } => Some(Event::Written(self.write.clone())),
            Request::SendSignal { .. } => Some(Event::Signal(self.signal.clone())),
            Request::Finish { .. } => None,
        }
    }

    fn take(&mut self, step: Step) -> Request {
        self.notices.extend(step.notices);
        self.output.extend(step.output);
        self.asked.push(step.request.clone());
        step.request
    }

    /// Runs `command` to its end and gives the failure that it ended with, if any.
    fn run(&mut self, command: Command) -> Option<SkinnerError> {
        let (mut session, step): (Session, Step) = app().run(command);
        let mut request = self.take(step);
        for _ in 0..64 {
            match self.answer(&request) {
                Some(event) => {
                    let (next, step) = session.advance(event);
                    session = next;
                    request = self.take(step);
                }
                None => {
                    assert!(session.is_finished());
                    break;
                }
            }
        }
        match request {
            Request::Finish { error } => error,
            other => panic!("the command did not end: {:?}", other),
        }
    }
}

fn with_script(mut world: World, theme: &str, outcome: ScriptOutcome) -> World {
    world.scripts.push((format!("{}/{}/{}-global.sh", THEMES, theme, theme), outcome));
    world
}

#[test]
fn every_command_starts_with_the_configuration() {
    let (session, step) = app().run(Command::List);
    assert_eq!(session.phase, Phase::Config);
    assert_eq!(step.request, Request::ReadConfig { path: CONFIG_FILE.to_string() });
    assert_eq!(step.notices, vec![info(&format!("Using config file: {}", CONFIG_FILE))]);
    assert_eq!(step.output, Vec::<String>::new());
    assert_eq!(session.pending(), step.request);
}

#[test]
fn activate_light_with_state_absent() {
    let mut world = with_script(world(), "solar", ScriptOutcome::Succeeded);
    world = with_script(world, "off", ScriptOutcome::Succeeded);
    world.config = configured(Some("solar"), None);
    world.state = StateSource::Absent;
    world.signal = SignalOutcome::Delivered;
    assert_eq!(world.run(activate("light")), None);
    let mut expected = vec![
        Request::ReadConfig { path: CONFIG_FILE.to_string() },
        Request::ReadState { path: STATE_FILE.to_string() },
        script("solar"),
        write("solar"),
    ];
    expected.extend(signals("URG"));
    expected.push(Request::Finish { error: None });
    assert_eq!(world.asked, expected);
    assert_eq!(world.notices.last(), Some(&info("Activated theme: solar")));
    assert!(world.notices.contains(&info(&format!("Wrote theme to {}", STATE_FILE))));
    assert!(world.notices.contains(&info("Sent URG to all -fish processes")));
    assert!(!world.notices.contains(&info("Deactivating current theme...")));
    assert_eq!(world.output, Vec::<String>::new());
}

#[test]
fn activate_dark_without_any_script() {
    let mut world = world();
    world.config = configured(None, Some("dark"));
    assert_eq!(world.run(activate("dark")), None);
    let mut expected = vec![
        Request::ReadConfig { path: CONFIG_FILE.to_string() },
        Request::ReadState { path: STATE_FILE.to_string() },
        script("dark"),
        write("dark"),
    ];
    expected.extend(signals("URG"));
    expected.push(Request::Finish { error: None });
    assert_eq!(world.asked, expected);
    assert!(world.notices.contains(&info(&format!(
        "Global script not found: {}/dark/dark-global.sh",
        THEMES
    ))));
    assert_eq!(world.notices.last(), Some(&info("Activated theme: dark")));
}

#[test]
fn activate_unknown_theme_succeeds() {
    let mut world = world();
    assert_eq!(world.run(activate("nowhere")), None);
    assert!(world.asked.contains(&write("nowhere")));
    assert_eq!(world.asked.len(), 11);
}

#[test]
fn deactivate_with_active_theme() {
    let mut world = with_script(world(), "off", ScriptOutcome::Succeeded);
    world.state = StateSource::Contents { text: "solar\n".to_string() };
    assert_eq!(world.run(Command::Deactivate), None);
    let mut expected =
        vec![Request::ReadConfig { path: CONFIG_FILE.to_string() }, script("off"), write("off")];
    expected.extend(signals("URG"));
    expected.push(Request::Finish { error: None });
    assert_eq!(world.asked, expected);
    assert_eq!(world.notices.last(), Some(&info("Activated theme: off")));
}

#[test]
fn activate_off_runs_the_off_script_once() {
    let mut world = with_script(world(), "off", ScriptOutcome::Succeeded);
    world.state = StateSource::Contents { text: "off".to_string() };
    assert_eq!(world.run(activate("off")), None);
    let runs: usize = world.asked.iter().filter(|request| **request == script("off")).count();
    assert_eq!(runs, 1);
    assert!(!world.asked.contains(&Request::ReadState { path: STATE_FILE.to_string() }));
}

#[test]
fn deactivate_equals_activate_off() {
    let mut left = world();
    let mut right = world();
    assert_eq!(left.run(Command::Deactivate), right.run(activate("off")));
    assert_eq!(left.asked, right.asked);
    assert_eq!(left.notices, right.notices);
}

#[test]
fn switching_themes_tears_down_first() {
    let mut world = with_script(world(), "off", ScriptOutcome::Succeeded);
    world = with_script(world, "night", ScriptOutcome::Succeeded);
    world.state = StateSource::Contents { text: "solar\n".to_string() };
    assert_eq!(world.run(activate("night")), None);
    let mut expected = vec![
        Request::ReadConfig { path: CONFIG_FILE.to_string() },
        Request::ReadState { path: STATE_FILE.to_string() },
        script("off"),
        script("night"),
        write("night"),
    ];
    expected.extend(signals("URG"));
    expected.push(Request::Finish { error: None });
    assert_eq!(world.asked, expected);
    let deactivating = world.notices.iter().position(|n| *n == info("Deactivating current theme..."));
    let deactivated = world.notices.iter().position(|n| *n == info("Theme deactivated"));
    assert!(deactivating.is_some() && deactivating < deactivated);
}

#[test]
fn reactivating_the_active_theme_tears_down_too() {
    let mut world = world();
    world.state = StateSource::Contents { text: "solar".to_string() };
    assert_eq!(world.run(activate("solar")), None);
    assert_eq!(world.asked[2], script("off"));
    assert_eq!(world.asked[3], script("solar"));
}

#[test]
fn unset_light_fails_without_side_effects() {
    let mut world = world();
    world.config = configured(None, Some("night"));
    let error = world.run(activate("light"));
    assert_eq!(error, Some(SkinnerError::NoSuchAliasConfigured { alias: Alias::Light }));
    assert_eq!(
        world.asked,
        vec![
            Request::ReadConfig { path: CONFIG_FILE.to_string() },
            Request::Finish {
                error: Some(SkinnerError::NoSuchAliasConfigured { alias: Alias::Light })
            },
        ]
    );
    assert_eq!(
        world.notices.last(),
        Some(&Notice {
            level: Level::Error,
            message: "Error: No light theme configured in skinner.conf".to_string(),
        })
    );
}

#[test]
fn unset_dark_fails_without_side_effects() {
    let mut world = world();
    let error = world.run(activate("dark"));
    assert_eq!(error, Some(SkinnerError::NoSuchAliasConfigured { alias: Alias::Dark }));
    assert_eq!(world.asked.len(), 2);
}

#[test]
fn failing_script_does_not_block_the_commit() {
    let failed = ScriptOutcome::Failed { stderr: "exit 3".to_string() };
    let mut world = with_script(world(), "solar", failed);
    assert_eq!(world.run(activate("solar")), None);
    assert!(world.asked.contains(&write("solar")));
    assert!(world.notices.contains(&Notice {
        level: Level::Error,
        message: "Script execution failed: exit 3".to_string(),
    }));
    assert_eq!(world.notices.last(), Some(&info("Activated theme: solar")));
}

#[test]
fn script_that_cannot_start_does_not_block_the_commit() {
    let outcome = ScriptOutcome::NotStarted { detail: "no bash".to_string() };
    let mut world = with_script(world(), "solar", outcome);
    assert_eq!(world.run(activate("solar")), None);
    assert!(world.asked.contains(&write("solar")));
}

#[test]
fn failing_teardown_does_not_block_the_setup() {
    let failed = ScriptOutcome::Failed { stderr: "nope".to_string() };
    let mut world = with_script(world(), "off", failed);
    world.state = StateSource::Contents { text: "solar".to_string() };
    assert_eq!(world.run(activate("night")), None);
    assert_eq!(world.asked[3], script("night"));
    assert_eq!(world.asked[4], write("night"));
}

#[test]
fn failed_write_is_fatal_and_sends_no_signal() {
    let mut world = world();
    world.write = WriteOutcome::Failed { detail: "read-only file system".to_string() };
    let error = world.run(activate("solar"));
    assert_eq!(error, Some(SkinnerError::Io { detail: "read-only file system".to_string() }));
    assert!(world.asked.iter().all(|request| !matches!(request, Request::SendSignal { .. })));
    assert_eq!(
        world.notices.last(),
        Some(&Notice { level: Level::Error, message: "Error: read-only file system".to_string() })
    );
}

#[test]
fn unavailable_killall_does_not_stop_the_broadcast() {
    let mut world = world();
    world.signal = SignalOutcome::Unavailable { detail: "not found".to_string() };
    assert_eq!(world.run(activate("solar")), None);
    let sent: usize =
        world.asked.iter().filter(|request| matches!(request, Request::SendSignal { .. })).count();
    assert_eq!(sent, 6);
    let errors: usize = world.notices.iter().filter(|n| n.level == Level::Error).count();
    assert_eq!(errors, 6);
}

#[test]
fn configured_signal_is_sent() {
    let mut world = world();
    world.config = ConfigSource::Parsed {
        themes: Some("~/t".to_string()),
        signal: Some("USR1".to_string()),
        light: None,
        dark: None,
    };
    assert_eq!(world.run(Command::Deactivate), None);
    assert_eq!(
        world.asked[1],
        Request::RunScript {
            interpreter: "bash".to_string(),
            path: "/home/u/t/off/off-global.sh".to_string(),
        }
    );
    assert_eq!(world.asked[3..9].to_vec(), signals("USR1"));
}

#[test]
fn theme_without_last_component_is_refused() {
    let mut world = world();
    let error = world.run(activate(".."));
    assert_eq!(error, Some(SkinnerError::InvalidThemeDirectory));
    assert!(world.asked.iter().all(|request| !matches!(request, Request::WriteState { .. })));
}

#[test]
fn malformed_configuration_is_fatal() {
    let mut world = world();
    world.config = ConfigSource::Malformed { detail: "did not find expected key".to_string() };
    let error = world.run(activate("solar"));
    assert_eq!(
        error,
        Some(SkinnerError::ConfigParse { detail: "did not find expected key".to_string() })
    );
    assert_eq!(world.asked.len(), 2);
    assert_eq!(
        world.notices.last(),
        Some(&Notice {
            level: Level::Error,
            message: "Error: Invalid config file: did not find expected key".to_string(),
        })
    );
}

#[test]
fn unreadable_state_is_fatal_before_any_script() {
    let mut world = world();
    world.state = StateSource::Unreadable { detail: "permission denied".to_string() };
    let error = world.run(activate("solar"));
    assert_eq!(error, Some(SkinnerError::Io { detail: "permission denied".to_string() }));
    assert_eq!(world.asked.len(), 3);
}

#[test]
fn missing_configuration_is_noted() {
    let mut world = world();
    assert_eq!(world.run(Command::Deactivate), None);
    assert_eq!(world.notices[1], info("Config file not found, using defaults"));
}

#[test]
fn list_marks_the_active_theme() {
    let mut world = world();
    world.scan = ScanResult::Entries {
        entries: vec![
            ThemeEntry {
                name: Some("solar".to_string()),
                is_dir: true,
                has_global: true,
                has_per_shell: false,
            },
            ThemeEntry {
                name: Some("off".to_string()),
                is_dir: true,
                has_global: false,
                has_per_shell: true,
            },
            ThemeEntry {
                name: Some("junk".to_string()),
                is_dir: true,
                has_global: false,
                has_per_shell: false,
            },
        ],
    };
    world.state = StateSource::Contents { text: "solar\n".to_string() };
    assert_eq!(world.run(Command::List), None);
    assert_eq!(world.output, vec!["off".to_string(), "solar (*)".to_string()]);
    assert_eq!(
        world.asked,
        vec![
            Request::ReadConfig { path: CONFIG_FILE.to_string() },
            Request::ScanThemes { dir: THEMES.to_string() },
            Request::ReadState { path: STATE_FILE.to_string() },
            Request::Finish { error: None },
        ]
    );
}

#[test]
fn list_without_themes_directory_says_so() {
    let mut world = world();
    assert_eq!(world.run(Command::List), None);
    assert_eq!(world.output, Vec::<String>::new());
    assert!(world.notices.contains(&info(&format!("Themes directory {} not found", THEMES))));
    assert_eq!(world.notices.last(), Some(&info("No themes found")));
}

#[test]
fn list_with_unreadable_directory_fails() {
    let mut world = world();
    world.scan = ScanResult::Unreadable { detail: "not a directory".to_string() };
    let error = world.run(Command::List);
    assert_eq!(error, Some(SkinnerError::Io { detail: "not a directory".to_string() }));
    assert_eq!(world.asked.len(), 3);
}

#[test]
fn setup_prints_bash_lines() {
    let mut world = world();
    assert_eq!(world.run(Command::Setup { fish: false }), None);
    assert_eq!(world.output, vec![app().setup_bash("URG".to_string()).unwrap()]);
    assert_eq!(world.asked.len(), 2);
}

#[test]
fn setup_prints_fish_lines_with_configured_signal() {
    let mut world = world();
    world.config = ConfigSource::Parsed {
        themes: None,
        signal: Some("USR2".to_string()),
        light: None,
        dark: None,
    };
    assert_eq!(world.run(Command::Setup { fish: true }), None);
    assert_eq!(world.output, vec![app().setup_fish("USR2".to_string()).unwrap()]);
}

#[test]
fn unexpected_event_changes_nothing() {
    let (session, first) = app().run(Command::List);
    let before = session.clone();
    let (after, step) = session.advance(Event::Written(WriteOutcome::Written));
    assert_eq!(after, before);
    assert_eq!(step.request, first.request);
    assert_eq!(step.notices, Vec::<Notice>::new());
    assert_eq!(step.output, Vec::<String>::new());
}

#[test]
fn finished_session_stays_finished() {
    let (session, _) = app().run(Command::Setup { fish: false });
    let (done, step) = session.advance(Event::Config(ConfigSource::Absent));
    assert!(done.is_finished());
    assert_eq!(step.request, Request::Finish { error: None });
    let (still, again) = done.clone().advance(Event::Script(ScriptOutcome::Succeeded));
    assert_eq!(still, done);
    assert_eq!(again.request, Request::Finish { error: None });
    assert_eq!(again.notices, Vec::<Notice>::new());
}

#[test]
fn exit_code_tells_failure_from_success() {
    assert_eq!(skinner::session::exit_code(&None), 0);
    assert_eq!(skinner::session::exit_code(&Some(SkinnerError::MissingHomeDirectory)), 1);
    assert_eq!(
        skinner::session::exit_code(&Some(SkinnerError::Io { detail: "x".to_string() })),
        1
    );
}

#[test]
fn failure_report_is_an_error_line() {
    assert_eq!(
        skinner::session::failure_report(&SkinnerError::MissingHomeDirectory),
        Notice {
            level: Level::Error,
            message: "Error: HOME environment variable not set".to_string(),
        }
    );
}

#[test]
fn entering_setup_asks_for_the_script() {
    let (session, _) = app().run(activate("solar"));
    let (ready, step) = session.enter_setup(Ok("/t/solar/solar-global.sh".to_string()), Vec::new());
    assert_eq!(ready.phase, Phase::Setup);
    assert_eq!(ready.script, "/t/solar/solar-global.sh");
    assert_eq!(
        step.request,
        Request::RunScript {
            interpreter: "bash".to_string(),
            path: "/t/solar/solar-global.sh".to_string(),
        }
    );
    assert_eq!(step.notices, Vec::<Notice>::new());
}

#[test]
fn entering_setup_without_script_name_ends_the_command() {
    let (session, _) = app().run(activate("solar"));
    let (done, step) =
        session.enter_setup(Err(SkinnerError::InvalidThemeDirectory), vec![info("before")]);
    assert!(done.is_finished());
    assert_eq!(done.error, Some(SkinnerError::InvalidThemeDirectory));
    assert_eq!(step.request, Request::Finish { error: Some(SkinnerError::InvalidThemeDirectory) });
    assert_eq!(
        step.notices,
        vec![
            info("before"),
            Notice { level: Level::Error, message: "Error: Invalid theme directory".to_string() },
        ]
    );
}

#[test]
fn entering_teardown_says_so() {
    let (session, _) = app().run(activate("solar"));
    let (undoing, step) = session.enter_teardown(Ok("/t/off/off-global.sh".to_string()), Vec::new());
    assert_eq!(undoing.phase, Phase::Teardown);
    assert_eq!(step.notices, vec![info("Deactivating current theme...")]);
    assert_eq!(
        step.request,
        Request::RunScript {
            interpreter: "bash".to_string(),
            path: "/t/off/off-global.sh".to_string(),
        }
    );
    let (gone, last) = undoing.enter_teardown(Err(SkinnerError::InvalidThemeDirectory), Vec::new());
    assert!(gone.is_finished());
    assert_eq!(last.request, Request::Finish { error: Some(SkinnerError::InvalidThemeDirectory) });
}
