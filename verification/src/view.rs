//! The views of the dashboard and the commands that move between them.
//!
//! The six views stand in a fixed ring: Overview, Cpu, Memory, Disk, Network,
//! Processes, and back to Overview. Keys of the terminal are reduced to `Key`,
//! which keeps of a key press only what the dashboard distinguishes.

use vstd::prelude::*;

verus! {

/// Number of views, and of tabs in the tab bar.
pub const VIEW_COUNT: usize = 6;

/// One of the display modes of the dashboard.
#[derive(Clone, Copy, Debug, PartialEq, Eq, Structural)]
pub enum DashboardView {
    Overview,
    Cpu,
    Memory,
    Disk,
    Network,
    Processes,
}

/// What a key press asks of the dashboard.
#[derive(Clone, Copy, Debug, PartialEq, Eq, Structural)]
pub enum Command {
    /// Show the next view of the ring.
    Advance,
    /// Show the previous view of the ring.
    Retreat,
    /// Leave the dashboard.
    Quit,
}

/// A key press, as far as the dashboard tells keys apart.
#[derive(Clone, Copy, Debug, PartialEq, Eq)]
pub enum Key {
    /// A character key.
    Char(char),
    /// The left arrow.
    Left,
    /// The right arrow.
    Right,
    /// Any other key.
    Other,
}

impl DashboardView {
    /// Place of the view in the ring and in the tab bar, counted from 0.
    pub open spec fn position(self) -> int {
        match self {
            DashboardView::Overview => 0,
            DashboardView::Cpu => 1,
            DashboardView::Memory => 2,
            DashboardView::Disk => 3,
            DashboardView::Network => 4,
            DashboardView::Processes => 5,
        }
    }

    /// The view that follows this one in the ring.
    pub open spec fn successor(self) -> DashboardView {
        match self {
            DashboardView::Overview => DashboardView::Cpu,
            DashboardView::Cpu => DashboardView::Memory,
            DashboardView::Memory => DashboardView::Disk,
            DashboardView::Disk => DashboardView::Network,
            DashboardView::Network => DashboardView::Processes,
            DashboardView::Processes => DashboardView::Overview,
        }
    }

    /// The view that precedes this one in the ring.
    pub open spec fn predecessor(self) -> DashboardView {
        match self {
            DashboardView::Overview => DashboardView::Processes,
            DashboardView::Cpu => DashboardView::Overview,
            DashboardView::Memory => DashboardView::Cpu,
            DashboardView::Disk => DashboardView::Memory,
            DashboardView::Network => DashboardView::Disk,
            DashboardView::Processes => DashboardView::Network,
        }
    }

    /// The view reached by advancing `steps` times.
    pub open spec fn advanced(self, steps: nat) -> DashboardView
        decreases steps,
    {
        if steps == 0 {
            self
        } else {
            self.advanced((steps - 1) as nat).successor()
        }
    }

    /// Title of the view in the tab bar.
    pub open spec fn title_text(self) -> Seq<char> {
        match self {
            DashboardView::Overview => "Overview"@,
            DashboardView::Cpu => "CPU"@,
            DashboardView::Memory => "Memory"@,
            DashboardView::Disk => "Disk"@,
            DashboardView::Network => "Network"@,
            DashboardView::Processes => "Processes"@,
        }
    }

    /// All views in the order of the ring, which is the order of the tabs.
    pub fn all() -> (views: [DashboardView; 6])
        ensures
            forall|i: int| 0 <= i < 6 ==> (#[trigger] views[i]).position() == i,
    {
        [
            DashboardView::Overview,
            DashboardView::Cpu,
            DashboardView::Memory,
            DashboardView::Disk,
            DashboardView::Network,
            DashboardView::Processes,
        ]
    }

    /// Index of the view's tab.
    pub fn index(self) -> (index: usize)
        ensures
            index == self.position(),
            index < VIEW_COUNT,
    {
        match self {
            DashboardView::Overview => 0,
            DashboardView::Cpu => 1,
            DashboardView::Memory => 2,
            DashboardView::Disk => 3,
            DashboardView::Network => 4,
            DashboardView::Processes => 5,
        }
    }

    /// The next view in the ring; Overview follows Processes.
    pub fn next(self) -> (view: DashboardView)
        ensures
            view == self.successor(),
            view.position() == (self.position() + 1) % 6,
    {
        match self {
            DashboardView::Overview => DashboardView::Cpu,
            DashboardView::Cpu => DashboardView::Memory,
            DashboardView::Memory => DashboardView::Disk,
            DashboardView::Disk => DashboardView::Network,
            DashboardView::Network => DashboardView::Processes,
            DashboardView::Processes => DashboardView::Overview,
        }
    }

    /// The previous view in the ring; Processes precedes Overview.
    pub fn previous(self) -> (view: DashboardView)
        ensures
            view == self.predecessor(),
            view.position() == (self.position() + 5) % 6,
    {
        match self {
            DashboardView::Overview => DashboardView::Processes,
            DashboardView::Cpu => DashboardView::Overview,
            DashboardView::Memory => DashboardView::Cpu,
            DashboardView::Disk => DashboardView::Memory,
            DashboardView::Network => DashboardView::Disk,
            DashboardView::Processes => DashboardView::Network,
        }
    }

    /// Title of the view's tab.
    pub fn title(self) -> (title: &'static str)
        ensures
            title@ == self.title_text(),
    {
        match self {
            DashboardView::Overview => "Overview",
            DashboardView::Cpu => "CPU",
            DashboardView::Memory => "Memory",
            DashboardView::Disk => "Disk",
            DashboardView::Network => "Network",
            DashboardView::Processes => "Processes",
        }
    }
}

impl Key {
    /// The command bound to the key: `q` quits, the right arrow advances, the
    /// left arrow retreats, and no other key means anything.
    pub open spec fn meaning(self) -> Option<Command> {
        match self {
            Key::Char(c) => if c == 'q' {
                Some(Command::Quit)
            } else {
                None
            },
            Key::Left => Some(Command::Retreat),
            Key::Right => Some(Command::Advance),
            Key::Other => None,
        }
    }

    /// The command bound to the key, if any.
    pub fn command(self) -> (command: Option<Command>)
        ensures
            command == self.meaning(),
    {
        match self {
            Key::Char(c) => if c == 'q' {
                Some(Command::Quit)
            } else {
                None
            },
            Key::Left => Some(Command::Retreat),
            Key::Right => Some(Command::Advance),
            Key::Other => None,
        }
    }
}

/// Advancing moves one place forward in the ring and retreating one place
/// back, both wrapping around its ends.
pub proof fn lemma_ring_positions(view: DashboardView)
    ensures
        0 <= view.position() < 6,
        view.successor().position() == (view.position() + 1) % 6,
        view.predecessor().position() == (view.position() + 5) % 6,
{
}

/// Two views at the same place of the ring are the same view.
pub proof fn lemma_position_identifies_view(a: DashboardView, b: DashboardView)
    requires
        a.position() == b.position(),
    ensures
        a == b,
{
}

/// Retreating undoes advancing, and advancing undoes retreating.
pub proof fn lemma_retreat_inverts_advance(view: DashboardView)
    ensures
        view.successor().predecessor() == view,
        view.predecessor().successor() == view,
{
}

/// Advancing `steps` times moves `steps` places forward around the ring.
pub proof fn lemma_advanced_position(view: DashboardView, steps: nat)
    ensures
        view.advanced(steps).position() == (view.position() + steps) % 6,
    decreases steps,
{
    if steps > 0 {
        lemma_advanced_position(view, (steps - 1) as nat);
        lemma_ring_positions(view.advanced((steps - 1) as nat));
    }
}

/// Advancing six times, from any view, leads back to that view.
pub proof fn lemma_six_advances_return(view: DashboardView)
    ensures
        view.advanced(6) == view,
{
    lemma_advanced_position(view, 6);
    lemma_position_identifies_view(view.advanced(6), view);
}

} // verus!
