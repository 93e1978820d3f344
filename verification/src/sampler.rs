//! The sampler's side of the shared state.
//!
//! The sampler runs on its own schedule: it asks the metrics provider for a
//! snapshot, stores it, and sleeps for one sampling interval, whatever the
//! renderer does meanwhile. A cycle in which the snapshot cannot be stored is
//! skipped; the next cycle starts afresh, with no retry in between.

use crate::snapshot::Snapshot;
use crate::state::{AccessError, SystemState};
use vstd::prelude::*;

verus! {

/// Time between two samples, in milliseconds.
pub const SAMPLE_INTERVAL_MS: u64 = 1000;

/// How one cycle of the sampler ended.
#[derive(Clone, Copy, Debug, PartialEq, Eq, Structural)]
pub enum SampleOutcome {
    /// The snapshot is the state's current one and every series has grown.
    Stored,
    /// The state could not be reached; it is as it was.
    Unreachable(AccessError),
    /// The snapshot's traffic counters do not add up within a `u64`; the state
    /// is as it was.
    Rejected,
}

/// Stores `snapshot` in the state that `access` leads to, if it leads to one
/// and the snapshot can be stored.
pub fn store_sample<C: Copy>(
    access: Result<&mut SystemState<C>, AccessError>,
    snapshot: Snapshot<C>,
) -> (outcome: SampleOutcome)
    ensures
        match access {
            Ok(state) => if snapshot.traffic().is_some() {
                outcome == SampleOutcome::Stored && final(state).follows(state, snapshot)
            } else {
                outcome == SampleOutcome::Rejected && *final(state) == *state
            },
            Err(error) => outcome == SampleOutcome::Unreachable(error),
        },
{
    match access {
        Ok(state) => {
            if snapshot.network_totals().is_some() {
                state.update(snapshot);
                SampleOutcome::Stored
            } else {
                SampleOutcome::Rejected
            }
        },
        Err(error) => SampleOutcome::Unreachable(error),
    }
}

} // verus!
