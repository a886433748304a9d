//! Telling the running shells of a change. Every shell of six process names
//! is sent the configured signal, one name at a time. That no process of a
//! name runs, or that the signal cannot be sent at all, is worth a line in the
//! log; the other names get their turn all the same.

use vstd::prelude::*;
use crate::context::SkinnerApp;
use crate::notice::{debug, error, info, Level, Notice, NoticeView};
use crate::request::{say, silence, Request, RequestView};

verus! {

/// The process names of the shells that are told, in the order of their turn.
/// A login shell runs under the shell's name behind a dash.
#[derive(Debug, Clone, Copy, PartialEq, Eq, Structural)]
pub enum Shell {
    Zsh,
    Bash,
    Fish,
    LoginZsh,
    LoginBash,
    LoginFish,
}

/// What became of sending the signal to the processes of one name.
#[derive(Debug, Clone, PartialEq, Eq)]
pub enum SignalOutcome {
    /// The signal was sent.
    Delivered,
    /// The signal was not sent, most often because no such process runs;
    /// `stderr` holds what was written to the error output.
    Rejected { stderr: String },
    /// The program that sends signals could not be run.
    Unavailable { detail: String },
}

/// A `SignalOutcome` with its texts as sequences of characters.
pub enum SignalView {
    Delivered,
    Rejected { stderr: Seq<char> },
    Unavailable { detail: Seq<char> },
}

impl DeepView for SignalOutcome {
    type V = SignalView;

    open spec fn deep_view(&self) -> SignalView {
        match self {
            SignalOutcome::Delivered => SignalView::Delivered,
            SignalOutcome::Rejected { stderr } => SignalView::Rejected { stderr: stderr@ },
            SignalOutcome::Unavailable { detail } => SignalView::Unavailable { detail: detail@ },
        }
    }
}

impl View for SignalOutcome {
    type V = SignalView;

    open spec fn view(&self) -> SignalView {
        self.deep_view()
    }
}

/// The shells in the order of their turn.
pub open spec fn shells() -> Seq<Shell> {
    seq![Shell::Zsh, Shell::Bash, Shell::Fish, Shell::LoginZsh, Shell::LoginBash, Shell::LoginFish]
}

/// The name under which the processes of `shell` run.
pub open spec fn process_name(shell: Shell) -> Seq<char> {
    match shell {
        Shell::Zsh => "zsh"@,
        Shell::Bash => "bash"@,
        Shell::Fish => "fish"@,
        Shell::LoginZsh => "-zsh"@,
        Shell::LoginBash => "-bash"@,
        Shell::LoginFish => "-fish"@,
    }
}

/// The shell whose turn comes after that of `shell`, if any.
pub open spec fn following(shell: Shell) -> Option<Shell> {
    match shell {
        Shell::Zsh => Some(Shell::Bash),
        Shell::Bash => Some(Shell::Fish),
        Shell::Fish => Some(Shell::LoginZsh),
        Shell::LoginZsh => Some(Shell::LoginBash),
        Shell::LoginBash => Some(Shell::LoginFish),
        Shell::LoginFish => None,
    }
}

/// The program that sends a signal to all processes of one name.
pub open spec fn signal_program() -> Seq<char> {
    "killall"@
}

/// The arguments with which that program sends `signal` to the processes of
/// `shell`: the signal behind a dash, then two dashes, so that a name behind a
/// dash is not taken for an option, then the name.
pub open spec fn signal_arguments(signal: Seq<char>, shell: Shell) -> Seq<Seq<char>> {
    seq!["-"@ + signal, "--"@, process_name(shell)]
}

/// The request to send `signal` to the processes of `shell`.
pub open spec fn signal_request(signal: Seq<char>, shell: Shell) -> RequestView {
    RequestView::SendSignal {
        program: signal_program(),
        arguments: signal_arguments(signal, shell),
    }
}

/// The requests that send `signal` to every shell, in the order of their turn.
pub open spec fn signal_requests(signal: Seq<char>) -> Seq<RequestView> {
    shells().map_values(|shell: Shell| signal_request(signal, shell))
}

/// The line for the log after `signal` was to be sent to the processes of `shell`.
pub open spec fn signal_notices(signal: Seq<char>, shell: Shell, outcome: SignalView) -> Seq<
    NoticeView,
> {
    let name = process_name(shell);
    match outcome {
        SignalView::Delivered => seq![
            info("Sent "@ + signal + " to all "@ + name + " processes"@),
        ],
        SignalView::Rejected { stderr } => seq![
            debug("Error from sending "@ + signal + " to "@ + name + ": "@ + stderr),
        ],
        SignalView::Unavailable { detail } => seq![
            error("Could not run killall -"@ + signal + " -- "@ + name + ": "@ + detail),
        ],
    }
}

impl Shell {
    /// The shell whose turn is first.
    pub fn first() -> (shell: Shell)
        ensures
            shell == shells()[0],
            shell == Shell::Zsh,
    {
        Shell::Zsh
    }

    /// The shell whose turn comes after this one's, if any.
    pub fn next(self) -> (shell: Option<Shell>)
        ensures
            shell == following(self),
    {
        match self {
            Shell::Zsh => Some(Shell::Bash),
            Shell::Bash => Some(Shell::Fish),
            Shell::Fish => Some(Shell::LoginZsh),
            Shell::LoginZsh => Some(Shell::LoginBash),
            Shell::LoginBash => Some(Shell::LoginFish),
            Shell::LoginFish => None,
        }
    }

    /// The name under which the processes of this shell run.
    pub fn name(self) -> (name: String)
        ensures
            name@ == process_name(self),
    {
        match self {
            Shell::Zsh => "zsh".to_owned(),
            Shell::Bash => "bash".to_owned(),
            Shell::Fish => "fish".to_owned(),
            Shell::LoginZsh => "-zsh".to_owned(),
            Shell::LoginBash => "-bash".to_owned(),
            Shell::LoginFish => "-fish".to_owned(),
        }
    }

    /// The request to send `signal` to the processes of this shell.
    pub fn signal(self, signal: &str) -> (request: Request)
        ensures
            request@ == signal_request(signal@, self),
    {
        let mut flag = "-".to_owned();
        flag.append(signal);
        let mut arguments: Vec<String> = Vec::new();
        arguments.push(flag);
        arguments.push("--".to_owned());
        arguments.push(self.name());
        proof {
            assert(arguments.deep_view() =~= signal_arguments(signal@, self));
        }
        Request::SendSignal { program: "killall".to_owned(), arguments }
    }

    /// The line for the log after `signal` was to be sent to the processes of
    /// this shell. That it was sent is worth a note. That it was not is to be
    /// expected where no such shell runs, and is told only to those who ask
    /// for everything. That the sending program could not be run is an error.
    pub fn report(self, signal: &str, outcome: &SignalOutcome) -> (notices: Vec<Notice>)
        ensures
            notices.deep_view() == signal_notices(signal@, self, outcome@),
    {
        let name = self.name();
        let mut notices = silence();
        match outcome {
            SignalOutcome::Delivered => {
                let mut message = "Sent ".to_owned();
                message.append(signal);
                message.append(" to all ");
                message.append(name.as_str());
                message.append(" processes");
                say(&mut notices, Notice::new(Level::Info, message));
            },
            SignalOutcome::Rejected { stderr } => {
                let mut message = "Error from sending ".to_owned();
                message.append(signal);
                message.append(" to ");
                message.append(name.as_str());
                message.append(": ");
                message.append(stderr.as_str());
                say(&mut notices, Notice::new(Level::Debug, message));
            },
            SignalOutcome::Unavailable { detail } => {
                let mut message = "Could not run killall -".to_owned();
                message.append(signal);
                message.append(" -- ");
                message.append(name.as_str());
                message.append(": ");
                message.append(detail.as_str());
                say(&mut notices, Notice::new(Level::Error, message));
            },
        }
        proof {
            assert(notices.deep_view() =~= signal_notices(signal@, self, outcome@));
        }
        notices
    }
}

impl SkinnerApp {
    /// The requests that tell the running shells of a change: one for each of
    /// the six process names, in the order of their turn, each sending `signal`
    /// to all processes of that name.
    pub fn send_signals(&self, signal: &str) -> (requests: Vec<Request>)
        ensures
            requests.deep_view() == signal_requests(signal@),
    {
        let mut requests: Vec<Request> = Vec::new();
        let mut turn = Some(Shell::first());
        let mut done: usize = 0;
        while turn.is_some()
            invariant
                done <= 6,
                requests.len() == done,
                turn == if done < 6 {
                    Some(shells()[done as int])
                } else {
                    None::<Shell>
                },
                forall|i: int|
                    0 <= i < done ==> (#[trigger] requests[i])@ == signal_request(
                        signal@,
                        shells()[i],
                    ),
            decreases 6 - done,
        {
            let shell = turn.unwrap();
            requests.push(shell.signal(signal));
            turn = shell.next();
            done = done + 1;
        }
        proof {
            assert(requests.deep_view() =~= signal_requests(signal@));
        }
        requests
    }
}

} // verus!
