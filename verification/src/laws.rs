//! What holds of every command, whatever the world answers: which requests a
//! session makes, in which order, and what cannot stop it.

use vstd::prelude::*;
use crate::config::{loaded, resolved, ConfigSourceView};
use crate::context::AppView;
use crate::error::{Alias, ErrorView};
use crate::request::{run_script, RequestView, StepView};
use crate::scripts::{script_of, ScriptView};
use crate::session::{next, pending, started, CommandView, EventView, Phase, SessionView};
use crate::signals::{following, signal_request, signal_requests, Shell, SignalView};
use crate::state::{current_theme, off, write_state, StateView, WriteView};

verus! {

/// Whether the session `s` asks which theme is active, or undoes the active
/// theme, only on its way to a theme other than `off`.
pub open spec fn coherent(s: SessionView) -> bool {
    (s.phase is State || s.phase is Teardown) ==> s.target != off()
}

/// The requests that the session `s` makes as it hears `events`, one after another.
pub open spec fn requests(s: SessionView, events: Seq<EventView>) -> Seq<RequestView>
    decreases events.len(),
{
    if events.len() == 0 {
        seq![]
    } else {
        let after = next(s, events[0]);
        seq![after.1.request] + requests(after.0, events.skip(1))
    }
}

/// The events that tell of the signals to the six shells, in the order of their turn.
pub open spec fn signal_events(outcomes: Seq<SignalView>) -> Seq<EventView> {
    outcomes.map_values(|outcome: SignalView| EventView::Signal(outcome))
}

/// Whether the session `s`, if it lists the themes or shows the lines for a
/// shell, is at a point where it only reads or is over.
pub open spec fn only_reads(s: SessionView) -> bool {
    (s.command is List || s.command is Setup) ==> (s.phase is Config || s.phase is Themes
        || s.phase is Marking || s.phase is Finished)
}

/// Listing the themes and showing the lines for a shell change nothing: from
/// start to end such a command asks only for files and directories to be
/// read, never for a script to be run, a record to be written or a signal to
/// be sent.
pub proof fn lemma_listing_changes_nothing(s: SessionView, event: EventView)
    requires
        s.command is List || s.command is Setup,
        only_reads(s),
    ensures
        only_reads(started(s.app, s.command)),
        only_reads(next(s, event).0),
        next(s, event).0.command == s.command,
        ({
            let request = next(s, event).1.request;
            request is ReadConfig || request is ScanThemes || request is ReadState
                || request is Finish
        }),
{
}

/// A session is coherent when it starts.
pub proof fn lemma_start_is_coherent(app: AppView, command: CommandView)
    ensures
        coherent(started(app, command)),
{
}

/// A coherent session stays coherent, whatever it hears.
pub proof fn lemma_next_is_coherent(s: SessionView, event: EventView)
    requires
        coherent(s),
    ensures
        coherent(next(s, event).0),
{
}

/// After every event the session asks for exactly what it is then waiting for.
pub proof fn lemma_asks_for_what_it_awaits(s: SessionView, event: EventView)
    ensures
        next(s, event).1.request == pending(next(s, event).0),
{
}

/// A session turns to undoing the active theme on one occasion only: it is
/// on its way to a theme other than `off`, and it hears that a theme is
/// active. So activating `off` undoes nothing first, and neither does
/// activating a theme while none is active.
pub proof fn lemma_teardown_needs_active_theme(s: SessionView, event: EventView)
    requires
        coherent(s),
        !(s.phase is Teardown),
        next(s, event).0.phase is Teardown,
    ensures
        s.phase is State,
        s.target != off(),
        event is State,
        current_theme(event->State_0) is Ok,
        current_theme(event->State_0)->Ok_0 != off(),
{
}

/// Deactivating, or activating a name that stands for `off`, goes from the
/// configuration straight to the script of the `off` theme, run once as the
/// script of the theme to activate: the session neither asks which theme is
/// active nor undoes one.
pub proof fn lemma_off_is_not_torn_down(s: SessionView, source: ConfigSourceView)
    requires
        s.phase is Config,
        loaded(s.app.home, source) is Ok,
        s.command is Deactivate || (s.command is Activate && resolved(
            loaded(s.app.home, source)->Ok_0,
            s.command->theme,
        ) == Ok::<Seq<char>, ErrorView>(off())),
    ensures
        ({
            let after = next(s, EventView::Config(source));
            let themes = loaded(s.app.home, source)->Ok_0.themes;
            &&& after.0.target == off()
            &&& match script_of(themes, off()) {
                Some(path) => after.0.phase is Setup && after.1.request == run_script(path),
                None => after.0.phase is Finished && after.1.request == (RequestView::Finish {
                    error: Some(ErrorView::InvalidThemeDirectory),
                }),
            }
        }),
{
    let config = loaded(s.app.home, source)->Ok_0;
    reveal_strlit("off");
    reveal_strlit("light");
    reveal_strlit("dark");
    assert(off().len() == 3 && "light"@.len() == 5 && "dark"@.len() == 4);
    assert(resolved(config, off()) == Ok::<Seq<char>, ErrorView>(off()));
}

/// Activating `light` or `dark` where the configuration names no such theme
/// fails with that alias, and the failure is all there is: the session is
/// over and asks for nothing to be run, written or sent.
pub proof fn lemma_unset_alias_fails(s: SessionView, source: ConfigSourceView, alias: Alias)
    requires
        s.phase is Config,
        s.command == (CommandView::Activate {
            theme: match alias {
                Alias::Light => "light"@,
                Alias::Dark => "dark"@,
            },
        }),
        loaded(s.app.home, source) is Ok,
        match alias {
            Alias::Light => loaded(s.app.home, source)->Ok_0.light is None,
            Alias::Dark => loaded(s.app.home, source)->Ok_0.dark is None,
        },
    ensures
        ({
            let after = next(s, EventView::Config(source));
            &&& after.0.phase is Finished
            &&& after.0.error == Some(ErrorView::NoSuchAliasConfigured { alias })
            &&& after.1.request == (RequestView::Finish {
                error: Some(ErrorView::NoSuchAliasConfigured { alias }),
            })
            &&& after.1.output.len() == 0
        }),
{
    reveal_strlit("light");
    reveal_strlit("dark");
    assert("light"@.len() == 5 && "dark"@.len() == 4);
    let config = loaded(s.app.home, source)->Ok_0;
    let theme = s.command->theme;
    assert(resolved(config, theme) == Err::<Seq<char>, ErrorView>(
        ErrorView::NoSuchAliasConfigured { alias },
    ));
}

/// A session that is over stays over: whatever it hears, it is unchanged,
/// says nothing and asks for nothing more.
pub proof fn lemma_finished_is_final(s: SessionView, event: EventView)
    requires
        s.phase is Finished,
    ensures
        next(s, event).0 == s,
        next(s, event).1 == (StepView {
            notices: seq![],
            output: seq![],
            request: RequestView::Finish { error: s.error },
        }),
{
}

/// Whatever came of the script of the theme to activate, be it missing,
/// failed or not even started, the theme is put on record next.
pub proof fn lemma_script_does_not_block_commit(s: SessionView, outcome: ScriptView)
    requires
        s.phase is Setup,
    ensures
        next(s, EventView::Script(outcome)).0.phase is Persist,
        next(s, EventView::Script(outcome)).0.target == s.target,
        next(s, EventView::Script(outcome)).1.request == write_state(
            s.app.current_theme_file,
            s.target,
        ),
{
}

/// Whatever came of the script of the `off` theme, the script of the theme
/// to activate is next, where the theme's directory names one.
pub proof fn lemma_teardown_does_not_block_setup(s: SessionView, outcome: ScriptView)
    requires
        s.phase is Teardown,
    ensures
        match script_of(s.config.themes, s.target) {
            Some(path) => {
                &&& next(s, EventView::Script(outcome)).0.phase is Setup
                &&& next(s, EventView::Script(outcome)).1.request == run_script(path)
            },
            None => next(s, EventView::Script(outcome)).0.phase is Finished,
        },
{
}

/// A record that could not be written ends the command with that failure,
/// before any shell is told.
pub proof fn lemma_failed_write_is_fatal(s: SessionView, detail: Seq<char>)
    requires
        s.phase is Persist,
    ensures
        ({
            let after = next(s, EventView::Written(WriteView::Failed { detail }));
            &&& after.0.phase is Finished
            &&& after.1.request == (RequestView::Finish { error: Some(ErrorView::Io { detail }) })
        }),
{
}

/// Whatever came of the signal to one shell, the next shell has its turn,
/// and after the last one the command ends well.
pub proof fn lemma_signal_does_not_block(s: SessionView, shell: Shell, outcome: SignalView)
    requires
        s.phase == (Phase::Broadcast { shell }),
    ensures
        ({
            let after = next(s, EventView::Signal(outcome));
            match following(shell) {
                Some(following) => after.0.phase == (Phase::Broadcast { shell: following })
                    && after.1.request == signal_request(s.config.signal, following),
                None => after.0.phase is Finished && after.1.request == (RequestView::Finish {
                    error: None,
                }),
            }
        }),
{
}

/// From the script of the theme to activate onwards, a session whose record
/// is written makes the same requests whatever came of the script and of the
/// signals: the record, then the signal to each of the six shells in the
/// order of their turn, then nothing more.
pub proof fn lemma_activation_order(s: SessionView, script: ScriptView, signals: Seq<SignalView>)
    requires
        s.phase is Setup,
        signals.len() == 6,
    ensures
        requests(
            s,
            seq![
                EventView::Script(script),
                EventView::Written(WriteView::Written),
            ] + signal_events(signals),
        ) == seq![write_state(s.app.current_theme_file, s.target)] + signal_requests(
            s.config.signal,
        ) + seq![RequestView::Finish { error: None }],
{
    let events = seq![
        EventView::Script(script),
        EventView::Written(WriteView::Written),
    ] + signal_events(signals);
    let wanted = seq![write_state(s.app.current_theme_file, s.target)] + signal_requests(
        s.config.signal,
    ) + seq![RequestView::Finish { error: None }];
    assert(events.len() == 8);
    assert(wanted.len() == 8);
    lemma_requests_len(s, events);
    let s1 = next(s, events[0]).0;
    let s2 = next(s1, events[1]).0;
    let s3 = next(s2, events[2]).0;
    let s4 = next(s3, events[3]).0;
    let s5 = next(s4, events[4]).0;
    let s6 = next(s5, events[5]).0;
    let s7 = next(s6, events[6]).0;
    lemma_requests_at(s, events, 0);
    lemma_requests_at(s, events, 1);
    lemma_requests_at(s, events, 2);
    lemma_requests_at(s, events, 3);
    lemma_requests_at(s, events, 4);
    lemma_requests_at(s, events, 5);
    lemma_requests_at(s, events, 6);
    lemma_requests_at(s, events, 7);
    reveal_with_fuel(state_after, 9);
    assert(state_after(s, events, 1) == s1);
    assert(state_after(s, events, 2) == s2);
    assert(state_after(s, events, 3) == s3);
    assert(state_after(s, events, 4) == s4);
    assert(state_after(s, events, 5) == s5);
    assert(state_after(s, events, 6) == s6);
    assert(state_after(s, events, 7) == s7);
    assert(requests(s, events) =~= wanted);
}

/// The session that `s` has become when it has heard the first `count` of `events`.
pub open spec fn state_after(s: SessionView, events: Seq<EventView>, count: nat) -> SessionView
    decreases count,
{
    if count == 0 || count > events.len() {
        s
    } else {
        next(state_after(s, events, (count - 1) as nat), events[count - 1])
    .0
    }
}

/// A session makes one request for each event that it hears.
pub proof fn lemma_requests_len(s: SessionView, events: Seq<EventView>)
    ensures
        requests(s, events).len() == events.len(),
    decreases events.len(),
{
    if events.len() > 0 {
        lemma_requests_len(next(s, events[0]).0, events.skip(1));
    }
}

/// The request that a session makes on hearing an event is the one that the
/// session which heard all events before it makes on that event.
pub proof fn lemma_requests_at(s: SessionView, events: Seq<EventView>, at: int)
    requires
        0 <= at < events.len(),
    ensures
        requests(s, events).len() == events.len(),
        requests(s, events)[at] == next(state_after(s, events, at as nat), events[at]).1.request,
    decreases events.len(),
{
    lemma_requests_len(s, events);
    if at > 0 {
        let first = next(s, events[0]).0;
        let rest = events.skip(1);
        lemma_requests_at(first, rest, at - 1);
        lemma_state_after_shift(s, events, at as nat);
    }
}

/// Hearing the first event and then more of the rest is hearing that many
/// and one more of all events.
proof fn lemma_state_after_shift(s: SessionView, events: Seq<EventView>, count: nat)
    requires
        1 <= count <= events.len(),
    ensures
        state_after(next(s, events[0]).0, events.skip(1), (count - 1) as nat) == state_after(
            s,
            events,
            count,
        ),
    decreases count,
{
    if count > 1 {
        lemma_state_after_shift(s, events, (count - 1) as nat);
    } else {
        assert(state_after(s, events, 0) == s);
        assert(state_after(next(s, events[0]).0, events.skip(1), 0) == next(s, events[0]).0);
    }
}

/// What a session asks for as it hears events, and then more events, is what
/// it asks for on the first ones followed by what the session that heard
/// them asks for on the others.
pub proof fn lemma_requests_concat(s: SessionView, first: Seq<EventView>, rest: Seq<EventView>)
    ensures
        requests(s, first + rest) == requests(s, first) + requests(
            state_after(s, first, first.len()),
            rest,
        ),
    decreases first.len(),
{
    if first.len() == 0 {
        assert(first + rest =~= rest);
        assert(requests(s, first) + requests(s, rest) =~= requests(s, rest));
    } else {
        let heard = next(s, first[0]).0;
        assert((first + rest).skip(1) =~= first.skip(1) + rest);
        lemma_requests_concat(heard, first.skip(1), rest);
        lemma_state_after_shift(s, first, first.len());
        assert(requests(s, first + rest) =~= requests(s, first) + requests(
            state_after(s, first, first.len()),
            rest,
        ));
    }
}

/// Activating a theme other than `off` while no theme is active: once the
/// session hears that none is, it asks for the theme's script, the record and
/// the six signals, in that order and whatever came of script and signals.
/// The script of the `off` theme is not run.
pub proof fn lemma_activation_without_teardown(
    s: SessionView,
    source: StateView,
    script: ScriptView,
    signals: Seq<SignalView>,
)
    requires
        s.phase is State,
        current_theme(source) == Ok::<Seq<char>, ErrorView>(off()),
        script_of(s.config.themes, s.target) is Some,
        signals.len() == 6,
    ensures
        requests(
            s,
            seq![EventView::State(source)] + (seq![
                EventView::Script(script),
                EventView::Written(WriteView::Written),
            ] + signal_events(signals)),
        ) == seq![run_script(script_of(s.config.themes, s.target)->0)] + (seq![
            write_state(s.app.current_theme_file, s.target),
        ] + signal_requests(s.config.signal) + seq![RequestView::Finish { error: None }]),
{
    let first = seq![EventView::State(source)];
    let rest = seq![EventView::Script(script), EventView::Written(WriteView::Written)]
        + signal_events(signals);
    lemma_requests_concat(s, first, rest);
    let ready = next(s, first[0]).0;
    assert(state_after(s, first, 0) == s);
    assert(state_after(s, first, 1) == ready);
    lemma_activation_order(ready, script, signals);
    lemma_requests_at(s, first, 0);
    assert(requests(s, first) =~= seq![run_script(script_of(s.config.themes, s.target)->0)]);
}

/// Activating a theme other than `off` while a theme is active: once the
/// session hears that one is, it asks for the script of the `off` theme, then
/// for the new theme's script, the record and the six signals, in that order
/// and whatever came of scripts and signals.
pub proof fn lemma_activation_with_teardown(
    s: SessionView,
    source: StateView,
    teardown: ScriptView,
    script: ScriptView,
    signals: Seq<SignalView>,
)
    requires
        s.phase is State,
        current_theme(source) is Ok,
        current_theme(source)->Ok_0 != off(),
        script_of(s.config.themes, off()) is Some,
        script_of(s.config.themes, s.target) is Some,
        signals.len() == 6,
    ensures
        requests(
            s,
            seq![EventView::State(source), EventView::Script(teardown)] + (seq![
                EventView::Script(script),
                EventView::Written(WriteView::Written),
            ] + signal_events(signals)),
        ) == seq![
            run_script(script_of(s.config.themes, off())->0),
            run_script(script_of(s.config.themes, s.target)->0),
        ] + (seq![write_state(s.app.current_theme_file, s.target)] + signal_requests(
            s.config.signal,
        ) + seq![RequestView::Finish { error: None }]),
{
    let first = seq![EventView::State(source), EventView::Script(teardown)];
    let rest = seq![EventView::Script(script), EventView::Written(WriteView::Written)]
        + signal_events(signals);
    lemma_requests_concat(s, first, rest);
    let undoing = next(s, first[0]).0;
    let ready = next(undoing, first[1]).0;
    assert(state_after(s, first, 0) == s);
    assert(state_after(s, first, 1) == undoing);
    assert(state_after(s, first, 2) == ready);
    lemma_activation_order(ready, script, signals);
    lemma_requests_at(s, first, 0);
    lemma_requests_at(s, first, 1);
    assert(requests(s, first) =~= seq![
        run_script(script_of(s.config.themes, off())->0),
        run_script(script_of(s.config.themes, s.target)->0),
    ]);
}

} // verus!
