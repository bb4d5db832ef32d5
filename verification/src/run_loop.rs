//! The run loop as a state machine.
//!
//! The machine decides; the host acts. Each call of [`RunLoop::advance`]
//! takes the host's report on the command it was given last and returns
//! the next command. Between two ticks the machine has the host collect
//! platform events, by polling while the engine animates and by blocking
//! otherwise. A tick drains the window's events into the coordinator and
//! then exchanges with the engine until the engine has nothing more to
//! say: pull notifications, let the coordinator handle them, forward the
//! coordinator's events, stop for good if the engine shut down, pull again.
//! A tick that saw the window resized ends with one synchronous repaint.

use crate::browser::{Browser, BrowserModel};
use crate::events::WindowEvent;
use crate::window::Window;
use vstd::prelude::*;

verus! {

/// What the host has to do next.
#[derive(Clone, Copy, Debug, PartialEq, Eq, Structural)]
pub enum Command {
    /// Take the platform events that wait, without blocking, hand each to
    /// `Window::handle_event`, then report `Collected`.
    Poll,
    /// Block until one platform event arrives, hand it to
    /// `Window::handle_event`, then report `Collected`.
    Wait,
    /// Pull the engine's pending notifications, then report `Pulled` and
    /// say whether there were none.
    PullNotifications,
    /// Have the coordinator handle the notifications just pulled, do what
    /// it requests for each, hand the events it has queued to the engine,
    /// then report `Exchanged`.
    Exchange,
    /// Have the engine repaint synchronously, then report `Repainted`.
    Repaint,
    /// Leave the loop.
    Exit,
}

/// What the host reports back.
#[derive(Clone, Copy, Debug, PartialEq, Eq, Structural)]
pub enum Report {
    Collected,
    Pulled { empty: bool },
    Exchanged,
    Repainted,
}

/// Where the loop stands.
#[derive(Clone, Copy, Debug, PartialEq, Eq, Structural)]
pub enum Phase {
    /// Between two ticks: the host collects platform events, by polling or
    /// by blocking.
    Collecting { polling: bool },
    /// In a tick: the host pulls notifications. `first` marks the pull that
    /// opens the tick, whose batch is handled even when it is empty.
    Pulling { need_resize: bool, first: bool },
    /// In a tick: the host has the batch handled and forwards the events.
    Exchanging { need_resize: bool },
    /// At the end of a tick that saw a resize: the host repaints.
    Repainting,
    /// The loop has ended.
    Stopped,
}

/// What the machine looks at when it decides.
pub struct Observation {
    /// The engine animates and the application is not suspended.
    pub animating: bool,
    /// The window has events queued.
    pub has_events: bool,
    /// The application is suspended.
    pub suspended: bool,
    /// One of the window's queued events is a resize.
    pub resized: bool,
    /// The engine has said that it shut down.
    pub shutdown: bool,
}

/// Whether a resize is among the events.
pub open spec fn has_resize(events: Seq<WindowEvent>) -> bool {
    exists|i: int| 0 <= i < events.len() && events[i] is Resize
}

/// What there is to see of a window and a coordinator.
pub open spec fn observe(window: &Window, browser: BrowserModel) -> Observation {
    Observation {
        animating: window.animating(),
        has_events: window.queued().len() > 0,
        suspended: window.state().suspended,
        resized: has_resize(window.queued()),
        shutdown: browser.shutdown_requested,
    }
}

/// The command that a phase waits on.
pub open spec fn pending(phase: Phase) -> Command {
    match phase {
        Phase::Collecting { polling } => if polling {
            Command::Poll
        } else {
            Command::Wait
        },
        Phase::Pulling { .. } => Command::PullNotifications,
        Phase::Exchanging { .. } => Command::Exchange,
        Phase::Repainting => Command::Repaint,
        Phase::Stopped => Command::Exit,
    }
}

/// Whether `report` answers the command that `phase` waits on.
pub open spec fn fits(phase: Phase, report: Report) -> bool {
    match phase {
        Phase::Collecting { .. } => report is Collected,
        Phase::Pulling { .. } => report is Pulled,
        Phase::Exchanging { .. } => report is Exchanged,
        Phase::Repainting => report is Repainted,
        Phase::Stopped => false,
    }
}

/// The phase between two ticks: polling while the engine animates,
/// blocking otherwise.
pub open spec fn collecting(animating: bool) -> Phase {
    Phase::Collecting { polling: animating }
}

/// Whether a report on collected events opens a tick. After a poll it
/// always does. After a blocking wait it does only if the window has
/// events queued and the application is not suspended.
pub open spec fn opens_tick(phase: Phase, report: Report, o: Observation) -> bool {
    phase matches Phase::Collecting { polling } && report is Collected && (polling || (
    o.has_events && !o.suspended))
}

/// The phase that follows `phase` on `report`. A report that does not
/// answer the pending command changes nothing.
pub open spec fn next_phase(phase: Phase, report: Report, o: Observation) -> Phase {
    match (phase, report) {
        (Phase::Collecting { polling }, Report::Collected) => if opens_tick(phase, report, o) {
            Phase::Pulling { need_resize: o.resized, first: true }
        } else {
            collecting(o.animating)
        },
        (Phase::Pulling { need_resize, first }, Report::Pulled { empty }) => if first || !empty {
            Phase::Exchanging { need_resize }
        } else if need_resize {
            Phase::Repainting
        } else {
            collecting(o.animating)
        },
        (Phase::Exchanging { need_resize }, Report::Exchanged) => if o.shutdown {
            Phase::Stopped
        } else {
            Phase::Pulling { need_resize, first: false }
        },
        (Phase::Repainting, Report::Repainted) => collecting(o.animating),
        _ => phase,
    }
}

/// The run loop.
pub struct RunLoop {
    phase: Phase,
}

impl RunLoop {
    /// Where the loop stands.
    pub closed spec fn phase(&self) -> Phase {
        self.phase
    }

    /// Starts the loop for a window and returns the first command.
    pub fn begin(window: &Window) -> (started: (RunLoop, Command))
        ensures
            started.0.phase() == collecting(window.animating()),
            started.1 == pending(started.0.phase()),
    {
        let polling = window.is_animating();
        let phase = Phase::Collecting { polling };
        (RunLoop { phase }, command_for(phase))
    }

    /// Where the loop stands.
    pub fn current_phase(&self) -> (phase: Phase)
        ensures
            phase == self.phase(),
    {
        self.phase
    }

    /// Takes the host's report and returns the next command.
    ///
    /// The loop moves to the phase that follows, and the command is the one
    /// that phase waits on. Where the report opens a tick, the window's
    /// queued events move to the end of the coordinator's queue; in every
    /// other case the window and the coordinator stay as they are.
    pub fn advance(&mut self, window: &mut Window, browser: &mut Browser, report: Report) -> (command:
        Command)
        ensures
            final(self).phase() == next_phase(
                old(self).phase(),
                report,
                observe(old(window), old(browser)@),
            ),
            command == pending(final(self).phase()),
            final(window).state() == old(window).state(),
            opens_tick(old(self).phase(), report, observe(old(window), old(browser)@)) ==> {
                &&& final(window).queued() == Seq::<WindowEvent>::empty()
                &&& final(browser)@ == (BrowserModel {
                    event_queue: old(browser)@.event_queue + old(window).queued(),
                    ..old(browser)@
                })
            },
            !opens_tick(old(self).phase(), report, observe(old(window), old(browser)@)) ==> {
                &&& final(window).queued() == old(window).queued()
                &&& final(browser)@ == old(browser)@
            },
    {
        let phase = match (self.phase, report) {
            (Phase::Collecting { polling }, Report::Collected) => {
                if polling || (window.has_events() && !window.current_state().suspended) {
                    let win_events = window.get_events();
                    let need_resize = any_resize(&win_events);
                    browser.handle_window_events(win_events);
                    Phase::Pulling { need_resize, first: true }
                } else {
                    Phase::Collecting { polling: window.is_animating() }
                }
            },
            (Phase::Pulling { need_resize, first }, Report::Pulled { empty }) => {
                if first || !empty {
                    Phase::Exchanging { need_resize }
                } else if need_resize {
                    Phase::Repainting
                } else {
                    Phase::Collecting { polling: window.is_animating() }
                }
            },
            (Phase::Exchanging { need_resize }, Report::Exchanged) => {
                if browser.shutdown_requested() {
                    Phase::Stopped
                } else {
                    Phase::Pulling { need_resize, first: false }
                }
            },
            (Phase::Repainting, Report::Repainted) => Phase::Collecting {
                polling: window.is_animating(),
            },
            (phase, _) => phase,
        };
        self.phase = phase;
        command_for(phase)
    }
}

/// The command that a phase waits on.
pub fn command_for(phase: Phase) -> (command: Command)
    ensures
        command == pending(phase),
{
    match phase {
        Phase::Collecting { polling } => if polling {
            Command::Poll
        } else {
            Command::Wait
        },
        Phase::Pulling { .. } => Command::PullNotifications,
        Phase::Exchanging { .. } => Command::Exchange,
        Phase::Repainting => Command::Repaint,
        Phase::Stopped => Command::Exit,
    }
}

/// Tells whether a resize is among the events.
pub fn any_resize(events: &Vec<WindowEvent>) -> (found: bool)
    ensures
        found == has_resize(events@),
{
    let mut i: usize = 0;
    while i < events.len()
        invariant
            i <= events.len(),
            forall|j: int| 0 <= j < i ==> !(events@[j] is Resize),
        decreases events.len() - i,
    {
        match events[i] {
            WindowEvent::Resize => {
                return true;
            },
            _ => {},
        }
        i += 1;
    }
    false
}

/// One report of the host together with what there was to see when it
/// came in.
pub struct Step {
    pub report: Report,
    pub seen: Observation,
}

/// The commands that a run of reports draws from the machine, in order.
pub open spec fn commands(phase: Phase, steps: Seq<Step>) -> Seq<Command>
    decreases steps.len(),
{
    if steps.len() == 0 {
        Seq::empty()
    } else {
        let next = next_phase(phase, steps[0].report, steps[0].seen);
        seq![pending(next)] + commands(next, steps.drop_first())
    }
}

/// Whether the steps carry the loop from `phase`, which lies inside a
/// tick, to the end of that tick and no further: every report answers the
/// pending command, and the loop is between two ticks after the last step
/// and not before.
pub open spec fn completes_tick(phase: Phase, steps: Seq<Step>) -> bool
    decreases steps.len(),
{
    &&& steps.len() > 0
    &&& !(phase is Collecting)
    &&& fits(phase, steps[0].report)
    &&& if steps.len() == 1 {
        next_phase(phase, steps[0].report, steps[0].seen) is Collecting
    } else {
        completes_tick(next_phase(phase, steps[0].report, steps[0].seen), steps.drop_first())
    }
}

/// How many of the commands ask for a repaint.
pub open spec fn repaints(commands: Seq<Command>) -> nat
    decreases commands.len(),
{
    if commands.len() == 0 {
        0
    } else {
        (if commands[0] is Repaint {
            1nat
        } else {
            0nat
        }) + repaints(commands.drop_first())
    }
}

/// Whether a command has the host talk to the engine.
pub open spec fn contacts_engine(command: Command) -> bool {
    command is PullNotifications || command is Exchange || command is Repaint
}

/// The repaints that are still to come in a tick that stands at `phase`.
spec fn owed_repaints(phase: Phase) -> nat {
    match phase {
        Phase::Pulling { need_resize, .. } => if need_resize {
            1
        } else {
            0
        },
        Phase::Exchanging { need_resize } => if need_resize {
            1
        } else {
            0
        },
        _ => 0,
    }
}

proof fn lemma_repaints_of_tick(phase: Phase, steps: Seq<Step>)
    requires
        completes_tick(phase, steps),
    ensures
        repaints(commands(phase, steps)) == owed_repaints(phase),
    decreases steps.len(),
{
    let next = next_phase(phase, steps[0].report, steps[0].seen);
    let rest = steps.drop_first();
    let tail = commands(next, rest);
    let all = commands(phase, steps);
    assert(all == seq![pending(next)] + tail);
    assert(all[0] == pending(next));
    assert(all.drop_first() == tail);
    assert(repaints(all) == (if pending(next) is Repaint {
        1nat
    } else {
        0nat
    }) + repaints(tail));
    if steps.len() == 1 {
        assert(rest.len() == 0);
        assert(tail == Seq::<Command>::empty());
        assert(repaints(tail) == 0);
    } else {
        lemma_repaints_of_tick(next, rest);
        assert(fits(next, rest[0].report));
    }
}

/// While the loop blocks for platform events, an event that leaves the
/// window's queue empty, or that arrives while the application is
/// suspended, draws no command that has the host talk to the engine: the
/// loop goes on collecting, and neither the window's queue nor the
/// coordinator changes.
pub proof fn law_idle_without_events_contacts_no_engine(seen: Observation)
    requires
        !seen.has_events || seen.suspended,
    ensures
        !opens_tick(Phase::Collecting { polling: false }, Report::Collected, seen),
        next_phase(Phase::Collecting { polling: false }, Report::Collected, seen) is Collecting,
        !contacts_engine(
            pending(next_phase(Phase::Collecting { polling: false }, Report::Collected, seen)),
        ),
{
}

/// Every tick begins by pulling the engine's notifications, and the tick
/// remembers whether a resize was among the window's events.
pub proof fn law_tick_begins_with_a_pull(phase: Phase, seen: Observation)
    requires
        opens_tick(phase, Report::Collected, seen),
    ensures
        next_phase(phase, Report::Collected, seen) == (Phase::Pulling {
            need_resize: seen.resized,
            first: true,
        }),
        pending(next_phase(phase, Report::Collected, seen)) == Command::PullNotifications,
{
}

/// A tick that runs to its end, the host answering each command with its
/// report, asks for exactly one synchronous repaint if the window was
/// resized and for none if it was not. (A tick that the engine's shutdown
/// cuts short does not run to its end.)
pub proof fn law_one_repaint_per_resized_tick(need_resize: bool, steps: Seq<Step>)
    requires
        completes_tick(Phase::Pulling { need_resize, first: true }, steps),
    ensures
        repaints(commands(Phase::Pulling { need_resize, first: true }, steps)) == if need_resize {
            1nat
        } else {
            0nat
        },
{
    lemma_repaints_of_tick(Phase::Pulling { need_resize, first: true }, steps);
}

/// The loop ends only where the engine has said that it shut down, seen
/// right after an exchange; and once ended it stays ended.
pub proof fn law_only_shutdown_stops_the_loop(phase: Phase, report: Report, seen: Observation)
    ensures
        next_phase(phase, report, seen) is Stopped ==> phase is Stopped || (phase is Exchanging
            && report is Exchanged && seen.shutdown),
        phase is Stopped ==> next_phase(phase, report, seen) is Stopped,
        phase is Exchanging && report is Exchanged && seen.shutdown ==> next_phase(
            phase,
            report,
            seen,
        ) is Stopped,
{
}

} // verus!
