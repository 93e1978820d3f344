//! The dashboard's selection state and the decisions of its loop.
//!
//! The loop itself belongs to the terminal: it draws a frame, waits up to
//! `POLL_TIMEOUT_MS` for a key, and goes round again. What it draws and
//! whether it goes on is decided here, from the selection state, the outcome
//! of reading the shared state, and the key that came, if one came.

use crate::state::{AccessError, SystemState, TelemetryView};
use crate::view::{Command, DashboardView, Key};
use vstd::prelude::*;

verus! {

/// Longest wait for a key in one round of the loop, in milliseconds.
pub const POLL_TIMEOUT_MS: u64 = 100;

/// Which view is shown, and whether the user asked to leave.
#[derive(Clone, Copy, Debug, PartialEq, Eq, Structural)]
pub struct Dashboard {
    pub current_view: DashboardView,
    pub should_quit: bool,
}

/// Whether the loop goes round again.
#[derive(Clone, Copy, Debug, PartialEq, Eq, Structural)]
pub enum LoopControl {
    Continue,
    Exit,
}

/// What one round of the loop draws below the tab bar.
pub enum Frame<'a, C> {
    /// The selected view, drawn from what was read of the state.
    Ready { view: DashboardView, seen: TelemetryView<'a, C> },
    /// An error indicator in place of the selected view: the state could not
    /// be read in this round.
    Unavailable { view: DashboardView, error: AccessError },
}

impl Dashboard {
    /// The state in which a dashboard starts.
    pub open spec fn initial() -> Dashboard {
        Dashboard { current_view: DashboardView::Overview, should_quit: false }
    }

    /// The state after `command`. Once the user has asked to leave, nothing
    /// changes any more.
    pub open spec fn after_command(self, command: Command) -> Dashboard {
        if self.should_quit {
            self
        } else {
            match command {
                Command::Advance => Dashboard {
                    current_view: self.current_view.successor(),
                    should_quit: false,
                },
                Command::Retreat => Dashboard {
                    current_view: self.current_view.predecessor(),
                    should_quit: false,
                },
                Command::Quit => Dashboard { current_view: self.current_view, should_quit: true },
            }
        }
    }

    /// The state after a key press; keys without a meaning change nothing.
    pub open spec fn after_key(self, key: Key) -> Dashboard {
        match key.meaning() {
            Some(command) => self.after_command(command),
            None => self,
        }
    }

    /// The state after one round of the loop, in which `event` is the key that
    /// came before the wait ran out, if one came.
    pub open spec fn after_event(self, event: Option<Key>) -> Dashboard {
        match event {
            Some(key) => self.after_key(key),
            None => self,
        }
    }

    /// The state after as many rounds as `events` has entries.
    pub open spec fn after_events(self, events: Seq<Option<Key>>) -> Dashboard
        decreases events.len(),
    {
        if events.len() == 0 {
            self
        } else {
            self.after_events(events.drop_last()).after_event(events.last())
        }
    }

    /// A dashboard that shows the overview.
    pub fn new() -> (dashboard: Dashboard)
        ensures
            dashboard == Dashboard::initial(),
    {
        Dashboard { current_view: DashboardView::Overview, should_quit: false }
    }

    /// Carries out `command`.
    pub fn apply(&mut self, command: Command)
        ensures
            *final(self) == old(self).after_command(command),
    {
        if !self.should_quit {
            match command {
                Command::Advance => {
                    self.current_view = self.current_view.next();
                },
                Command::Retreat => {
                    self.current_view = self.current_view.previous();
                },
                Command::Quit => {
                    self.should_quit = true;
                },
            }
        }
    }

    /// Reacts to a key press.
    pub fn handle_input(&mut self, key: Key)
        ensures
            *final(self) == old(self).after_key(key),
    {
        match key.command() {
            Some(command) => {
                self.apply(command);
            },
            None => {},
        }
    }

    /// Ends one round of the loop: reacts to the key that came, if one came,
    /// and says whether another round follows.
    pub fn step(&mut self, event: Option<Key>) -> (control: LoopControl)
        ensures
            *final(self) == old(self).after_event(event),
            control == (if final(self).should_quit {
                LoopControl::Exit
            } else {
                LoopControl::Continue
            }),
    {
        match event {
            Some(key) => {
                self.handle_input(key);
            },
            None => {},
        }
        if self.should_quit {
            LoopControl::Exit
        } else {
            LoopControl::Continue
        }
    }

    /// Goes through the loop with `events` in place of the terminal: one round
    /// for each entry, until the user asks to leave or the entries run out.
    /// Returns the number of rounds, which is the number of frames drawn.
    pub fn run(&mut self, events: &Vec<Option<Key>>) -> (rounds: usize)
        ensures
            rounds <= events@.len(),
            *final(self) == old(self).after_events(events@.take(rounds as int)),
            *final(self) == old(self).after_events(events@),
            rounds < events@.len() ==> final(self).should_quit,
            forall|k: int|
                0 <= k < rounds ==> !(#[trigger] old(self).after_events(
                    events@.take(k),
                )).should_quit,
    {
        let mut rounds: usize = 0;
        while rounds < events.len() && !self.should_quit
            invariant
                rounds <= events@.len(),
                *self == old(self).after_events(events@.take(rounds as int)),
                forall|k: int|
                    0 <= k < rounds ==> !(#[trigger] old(self).after_events(
                        events@.take(k),
                    )).should_quit,
            decreases events.len() - rounds,
        {
            let event = events[rounds];
            self.step(event);
            rounds = rounds + 1;
            assert(events@.take(rounds as int).drop_last() =~= events@.take(rounds - 1));
        }
        proof {
            let done = events@.take(rounds as int);
            let rest = events@.skip(rounds as int);
            assert(done + rest =~= events@);
            lemma_rounds_compose(*old(self), done, rest);
            if rounds < events@.len() {
                lemma_quit_is_final(*self, rest);
            } else {
                assert(rest =~= Seq::<Option<Key>>::empty());
            }
        }
        rounds
    }

    /// What this round draws, given the outcome of reading the shared state.
    /// A state that cannot be read costs this frame only: an error indicator
    /// is drawn in place of the view.
    pub fn frame<'a, C>(
        &self,
        access: Result<&'a SystemState<C>, AccessError>,
    ) -> (frame: Frame<'a, C>)
        ensures
            match access {
                Ok(state) => {
                    &&& frame matches Frame::Ready { view, seen }
                    &&& view == self.current_view
                    &&& *seen.snapshot == state.current()
                    &&& seen.cpu_history@ == state.cpu_samples()
                    &&& seen.memory_history@ == state.memory_samples()
                    &&& seen.network_history@ == state.network_samples()
                },
                Err(error) => {
                    &&& frame matches Frame::Unavailable { view, error: shown }
                    &&& view == self.current_view
                    &&& shown == error
                },
            },
    {
        match access {
            Ok(state) => Frame::Ready { view: self.current_view, seen: state.read() },
            Err(error) => Frame::Unavailable { view: self.current_view, error },
        }
    }
}

/// Text of the status line below every view.
pub fn status_line() -> (text: &'static str)
    ensures
        text@ == "Press 'q' to quit, arrow keys to navigate"@,
{
    "Press 'q' to quit, arrow keys to navigate"
}

/// Rounds in a row add up: going through `first` and then through `second` is
/// going through the two in one.
pub proof fn lemma_rounds_compose(
    start: Dashboard,
    first: Seq<Option<Key>>,
    second: Seq<Option<Key>>,
)
    ensures
        start.after_events(first + second) == start.after_events(first).after_events(second),
    decreases second.len(),
{
    if second.len() == 0 {
        assert(first + second =~= first);
    } else {
        lemma_rounds_compose(start, first, second.drop_last());
        assert((first + second).drop_last() =~= first + second.drop_last());
    }
}

/// Asking to leave is final: whatever keys come afterwards, neither the view
/// nor the wish to leave changes.
pub proof fn lemma_quit_is_final(dashboard: Dashboard, events: Seq<Option<Key>>)
    requires
        dashboard.should_quit,
    ensures
        dashboard.after_events(events) == dashboard,
    decreases events.len(),
{
    if events.len() > 0 {
        lemma_quit_is_final(dashboard, events.drop_last());
    }
}

/// Six advances in a row lead back to the view from which they started, and
/// a retreat undoes an advance.
pub proof fn lemma_ring_of_views(dashboard: Dashboard)
    ensures
        dashboard.after_command(Command::Advance).after_command(Command::Advance).after_command(
            Command::Advance,
        ).after_command(Command::Advance).after_command(Command::Advance).after_command(
            Command::Advance,
        ) == dashboard,
        dashboard.after_command(Command::Advance).after_command(Command::Retreat) == dashboard,
        dashboard.after_command(Command::Retreat).after_command(Command::Advance) == dashboard,
{
}

} // verus!
