//! The telemetry state that the sampler writes and the renderer reads.
//!
//! The state owns the latest snapshot together with the history series that
//! are derived from the snapshots. It changes in one step only, `update`, which
//! takes the state by exclusive reference: whoever reads the state sees the
//! snapshot of one update and series whose newest samples stem from that same
//! snapshot, never a mixture of two updates.

use crate::history::{appended, History};
use crate::rate::pair_rate_of;
use crate::snapshot::Snapshot;
use vstd::prelude::*;

verus! {

/// Why the shared state could not be reached.
#[derive(Clone, Copy, Debug, PartialEq, Eq, Structural)]
pub enum AccessError {
    /// An earlier holder of the state's lock ended abnormally while holding it.
    Poisoned,
}

impl AccessError {
    /// The text shown in place of a view that could not be drawn.
    pub open spec fn message_text(self) -> Seq<char> {
        "Error: Could not access system state."@
    }

    /// The text shown in place of a view that could not be drawn.
    pub fn message(&self) -> (text: &'static str)
        ensures
            text@ == self.message_text(),
    {
        "Error: Could not access system state."
    }
}

/// The history series, which grow together: one sample each per update.
struct SeriesSet<C> {
    cpu: History<C>,
    memory: History<(u64, u64)>,
    network: History<(u64, u64)>,
}

/// The latest snapshot and the history series derived from all snapshots.
pub struct SystemState<C> {
    snapshot: Snapshot<C>,
    series: SeriesSet<C>,
}

/// What a reader sees of the state while it holds it.
pub struct TelemetryView<'a, C> {
    pub snapshot: &'a Snapshot<C>,
    /// CPU load, one sample per update.
    pub cpu_history: &'a History<C>,
    /// Memory in use and memory installed, one pair per update.
    pub memory_history: &'a History<(u64, u64)>,
    /// Bytes received and transmitted over all interfaces, one pair per update.
    pub network_history: &'a History<(u64, u64)>,
}

impl<C> SeriesSet<C> {
    /// Three empty series.
    fn new() -> (series: Self)
        ensures
            series.cpu@ == Seq::<C>::empty(),
            series.memory@ == Seq::<(u64, u64)>::empty(),
            series.network@ == Seq::<(u64, u64)>::empty(),
    {
        SeriesSet { cpu: History::new(), memory: History::new(), network: History::new() }
    }
}

impl<C> SystemState<C> {
    /// All series hold equally many samples, and the newest sample of each
    /// stems from the current snapshot.
    #[verifier::type_invariant]
    spec fn coherent(self) -> bool {
        &&& self.series.cpu@.len() == self.series.memory@.len()
        &&& self.series.cpu@.len() == self.series.network@.len()
        &&& self.series.cpu@.len() > 0 ==> {
            &&& self.series.cpu@.last() == self.snapshot.cpu_usage
            &&& self.series.memory@.last() == self.snapshot.memory()
            &&& self.snapshot.traffic() == Some(self.series.network@.last())
        }
    }

    /// The current snapshot.
    pub closed spec fn current(&self) -> Snapshot<C> {
        self.snapshot
    }

    /// The CPU load series, oldest sample first.
    pub closed spec fn cpu_samples(&self) -> Seq<C> {
        self.series.cpu@
    }

    /// The memory series, oldest sample first.
    pub closed spec fn memory_samples(&self) -> Seq<(u64, u64)> {
        self.series.memory@
    }

    /// The network traffic series, oldest sample first.
    pub closed spec fn network_samples(&self) -> Seq<(u64, u64)> {
        self.series.network@
    }

    /// Whether `self` is what `before` becomes when `snapshot` is stored in it:
    /// the snapshot is the current one, and each series has got the value that
    /// the snapshot gives for it as its newest sample.
    pub open spec fn follows(&self, before: &SystemState<C>, snapshot: Snapshot<C>) -> bool {
        &&& self.current() == snapshot
        &&& self.cpu_samples() == appended(before.cpu_samples(), snapshot.cpu_usage)
        &&& self.memory_samples() == appended(before.memory_samples(), snapshot.memory())
        &&& self.network_samples() == appended(
            before.network_samples(),
            snapshot.traffic().unwrap(),
        )
    }

    /// A state that holds `snapshot` and no history yet.
    pub fn new(snapshot: Snapshot<C>) -> (state: Self)
        ensures
            state.current() == snapshot,
            state.cpu_samples() == Seq::<C>::empty(),
            state.memory_samples() == Seq::<(u64, u64)>::empty(),
            state.network_samples() == Seq::<(u64, u64)>::empty(),
    {
        SystemState { snapshot, series: SeriesSet::new() }
    }

    /// Grants access to the current snapshot and to all series. What is seen
    /// belongs together: the series hold equally many samples, and where they
    /// hold any, each ends with the value that the current snapshot gives for
    /// it.
    pub fn read(&self) -> (seen: TelemetryView<'_, C>)
        ensures
            *seen.snapshot == self.current(),
            seen.cpu_history@ == self.cpu_samples(),
            seen.memory_history@ == self.memory_samples(),
            seen.network_history@ == self.network_samples(),
            self.cpu_samples().len() == self.memory_samples().len(),
            self.cpu_samples().len() == self.network_samples().len(),
            self.cpu_samples().len() > 0 ==> {
                &&& self.cpu_samples().last() == self.current().cpu_usage
                &&& self.memory_samples().last() == self.current().memory()
                &&& self.current().traffic() == Some(self.network_samples().last())
            },
    {
        proof {
            use_type_invariant(self);
        }
        TelemetryView {
            snapshot: &self.snapshot,
            cpu_history: &self.series.cpu,
            memory_history: &self.series.memory,
            network_history: &self.series.network,
        }
    }

    /// Current rate of received and of transmitted bytes over all interfaces,
    /// per sampling interval.
    pub fn network_rate(&self) -> (rate: (u64, u64))
        ensures
            rate == pair_rate_of(self.network_samples()),
    {
        self.series.network.rate()
    }
}

impl<C: Copy> SystemState<C> {
    /// Replaces the current snapshot by `snapshot` and records what it gives
    /// for each series as that series' newest sample.
    pub fn update(&mut self, snapshot: Snapshot<C>)
        requires
            snapshot.traffic().is_some(),
        ensures
            final(self).follows(old(self), snapshot),
    {
        proof {
            use_type_invariant(&*self);
        }
        let traffic = snapshot.network_totals().unwrap();
        // The series are taken out while they grow, and come back only after
        // the snapshot that they then end with is in place.
        let mut series = SeriesSet::new();
        std::mem::swap(&mut series, &mut self.series);
        series.cpu.append(snapshot.cpu_usage);
        series.memory.append((snapshot.used_memory, snapshot.total_memory));
        series.network.append(traffic);
        self.snapshot = snapshot;
        self.series = series;
    }
}

/// What is read after an update stems from that update alone: the snapshot is
/// the one that was stored, every series holds a newest sample, and that
/// sample is the value which the stored snapshot gives for the series.
pub proof fn lemma_read_after_update<C>(
    before: SystemState<C>,
    after: SystemState<C>,
    snapshot: Snapshot<C>,
)
    requires
        after.follows(&before, snapshot),
    ensures
        after.current() == snapshot,
        after.cpu_samples().len() > 0,
        after.cpu_samples().last() == snapshot.cpu_usage,
        after.memory_samples().len() > 0,
        after.memory_samples().last() == snapshot.memory(),
        after.network_samples().len() > 0,
        after.network_samples().last() == snapshot.traffic().unwrap(),
{
}

} // verus!
