//! One capture of the host's metrics, and the totals derived from it.
//!
//! A snapshot is produced whole by a metrics provider and never changed
//! afterwards. The type of a CPU load reading is left to the provider: this
//! library stores and hands back such readings without looking into them.

use std::collections::HashMap;
use vstd::prelude::*;

verus! {

/// Space of one mounted disk, in bytes.
#[derive(Clone, Debug, PartialEq, Eq)]
pub struct DiskEntry {
    pub mount_point: String,
    pub total_space: u64,
    pub available_space: u64,
}

/// Traffic of one network interface since it came up, in bytes.
#[derive(Clone, Debug, PartialEq, Eq)]
pub struct NetworkEntry {
    pub name: String,
    pub received: u64,
    pub transmitted: u64,
}

/// One row of the process table.
#[derive(Clone, Debug, PartialEq)]
pub struct ProcessInfo<C> {
    pub name: String,
    pub cpu_usage: C,
    /// Resident memory, in bytes.
    pub memory: u64,
    pub status: String,
}

/// The host's metrics at one sampling instant.
#[derive(Clone, Debug, PartialEq)]
pub struct Snapshot<C> {
    /// Load over all cores.
    pub cpu_usage: C,
    pub cpu_cores: usize,
    pub used_memory: u64,
    pub total_memory: u64,
    pub used_swap: u64,
    pub total_swap: u64,
    pub disks: Vec<DiskEntry>,
    pub networks: Vec<NetworkEntry>,
    /// The process table, by process id.
    pub processes: HashMap<u32, ProcessInfo<C>>,
}

/// Total and used space over a set of disks, in bytes.
#[derive(Clone, Copy, Debug, PartialEq, Eq, Structural)]
pub struct DiskTotals {
    pub total_space: u64,
    pub used_space: u64,
}

/// Sum of the first `n` terms of `term`.
pub open spec fn sum_of(term: spec_fn(int) -> nat, n: nat) -> nat
    decreases n,
{
    if n == 0 {
        0
    } else {
        sum_of(term, (n - 1) as nat) + term(n - 1)
    }
}

/// A sum does not shrink when terms are added to it.
pub proof fn lemma_sum_grows(term: spec_fn(int) -> nat, m: nat, n: nat)
    requires
        m <= n,
    ensures
        sum_of(term, m) <= sum_of(term, n),
    decreases n,
{
    if m < n {
        lemma_sum_grows(term, m, (n - 1) as nat);
    }
}

/// A sum of terms that are each no greater than the matching term of another
/// sum is no greater than that sum.
pub proof fn lemma_sum_bounded(small: spec_fn(int) -> nat, large: spec_fn(int) -> nat, n: nat)
    requires
        forall|i: int| 0 <= i < n ==> #[trigger] small(i) <= large(i),
    ensures
        sum_of(small, n) <= sum_of(large, n),
    decreases n,
{
    if n > 0 {
        lemma_sum_bounded(small, large, (n - 1) as nat);
    }
}

/// Bytes received over all of `networks`.
pub open spec fn received_sum(networks: Seq<NetworkEntry>) -> nat {
    sum_of(|i: int| networks[i].received as nat, networks.len())
}

/// Bytes transmitted over all of `networks`.
pub open spec fn transmitted_sum(networks: Seq<NetworkEntry>) -> nat {
    sum_of(|i: int| networks[i].transmitted as nat, networks.len())
}

/// The pair of traffic totals over `networks`, where both fit a `u64`.
pub open spec fn traffic_totals(networks: Seq<NetworkEntry>) -> Option<(u64, u64)> {
    if received_sum(networks) <= u64::MAX && transmitted_sum(networks) <= u64::MAX {
        Some((received_sum(networks) as u64, transmitted_sum(networks) as u64))
    } else {
        None
    }
}

/// Whether no disk of `disks` reports more available than total space.
pub open spec fn disks_consistent(disks: Seq<DiskEntry>) -> bool {
    forall|i: int| 0 <= i < disks.len() ==> disks[i].available_space <= disks[i].total_space
}

/// Space that is in use on `disk`; 0 where it reports more available space
/// than it has.
pub open spec fn used_of(disk: DiskEntry) -> nat {
    if disk.available_space <= disk.total_space {
        (disk.total_space - disk.available_space) as nat
    } else {
        0
    }
}

/// Total space over all of `disks`.
pub open spec fn total_space_sum(disks: Seq<DiskEntry>) -> nat {
    sum_of(|i: int| disks[i].total_space as nat, disks.len())
}

/// Used space over all of `disks`.
pub open spec fn used_space_sum(disks: Seq<DiskEntry>) -> nat {
    sum_of(|i: int| used_of(disks[i]), disks.len())
}

/// The totals over `disks`, where every disk is consistent and the total
/// space fits a `u64`.
pub open spec fn space_totals(disks: Seq<DiskEntry>) -> Option<DiskTotals> {
    if disks_consistent(disks) && total_space_sum(disks) <= u64::MAX {
        Some(
            DiskTotals {
                total_space: total_space_sum(disks) as u64,
                used_space: used_space_sum(disks) as u64,
            },
        )
    } else {
        None
    }
}

/// No more space is in use over a set of disks than they have.
pub proof fn lemma_used_within_total(disks: Seq<DiskEntry>)
    ensures
        used_space_sum(disks) <= total_space_sum(disks),
{
    lemma_sum_bounded(
        |i: int| used_of(disks[i]),
        |i: int| disks[i].total_space as nat,
        disks.len(),
    );
}

impl DiskEntry {
    /// Space in use on the disk, unless it reports more available space than
    /// it has.
    pub fn used_space(&self) -> (used: Option<u64>)
        ensures
            self.available_space <= self.total_space ==> used == Some(
                (self.total_space - self.available_space) as u64,
            ),
            self.available_space > self.total_space ==> used.is_none(),
    {
        self.total_space.checked_sub(self.available_space)
    }
}

impl<C> ProcessInfo<C> {
    /// Resident memory of the process in whole mebibytes, rounded down.
    pub fn memory_mib(&self) -> (mib: u64)
        ensures
            mib == self.memory / 1_048_576,
    {
        self.memory / 1024 / 1024
    }
}

/// Total and used space over `disks`. There are none where a disk reports more
/// available than total space, or where the total exceeds a `u64`.
pub fn disk_totals(disks: &Vec<DiskEntry>) -> (totals: Option<DiskTotals>)
    ensures
        totals == space_totals(disks@),
{
    let ghost all_total = |i: int| disks@[i].total_space as nat;
    let ghost all_used = |i: int| used_of(disks@[i]);
    let mut total_space: u64 = 0;
    let mut used_space: u64 = 0;
    let mut index: usize = 0;
    while index < disks.len()
        invariant
            index <= disks@.len(),
            all_total == |i: int| disks@[i].total_space as nat,
            all_used == |i: int| used_of(disks@[i]),
            total_space == sum_of(all_total, index as nat),
            used_space == sum_of(all_used, index as nat),
            used_space <= total_space,
            forall|i: int| 0 <= i < index ==> disks@[i].available_space <= disks@[i].total_space,
        decreases disks.len() - index,
    {
        let disk = &disks[index];
        let used = match disk.used_space() {
            Some(used) => used,
            None => {
                return None;
            },
        };
        proof {
            lemma_sum_grows(all_total, (index + 1) as nat, disks@.len());
        }
        total_space = match total_space.checked_add(disk.total_space) {
            Some(sum) => sum,
            None => {
                return None;
            },
        };
        used_space = used_space + used;
        index = index + 1;
    }
    Some(DiskTotals { total_space, used_space })
}

impl<C> Snapshot<C> {
    /// Bytes received and transmitted over all interfaces, where both sums fit
    /// a `u64`.
    pub open spec fn traffic(&self) -> Option<(u64, u64)> {
        traffic_totals(self.networks@)
    }

    /// The pair of memory in use and memory installed.
    pub open spec fn memory(&self) -> (u64, u64) {
        (self.used_memory, self.total_memory)
    }

    /// Bytes received and transmitted over all interfaces. There is no such
    /// pair where one of the sums exceeds a `u64`.
    pub fn network_totals(&self) -> (totals: Option<(u64, u64)>)
        ensures
            totals == self.traffic(),
    {
        let ghost all_received = |i: int| self.networks@[i].received as nat;
        let ghost all_transmitted = |i: int| self.networks@[i].transmitted as nat;
        let mut received: u64 = 0;
        let mut transmitted: u64 = 0;
        let mut index: usize = 0;
        while index < self.networks.len()
            invariant
                index <= self.networks@.len(),
                all_received == |i: int| self.networks@[i].received as nat,
                all_transmitted == |i: int| self.networks@[i].transmitted as nat,
                received == sum_of(all_received, index as nat),
                transmitted == sum_of(all_transmitted, index as nat),
            decreases self.networks.len() - index,
        {
            let entry = &self.networks[index];
            proof {
                lemma_sum_grows(all_received, (index + 1) as nat, self.networks@.len());
                lemma_sum_grows(all_transmitted, (index + 1) as nat, self.networks@.len());
            }
            received = match received.checked_add(entry.received) {
                Some(sum) => sum,
                None => {
                    return None;
                },
            };
            transmitted = match transmitted.checked_add(entry.transmitted) {
                Some(sum) => sum,
                None => {
                    return None;
                },
            };
            index = index + 1;
        }
        Some((received, transmitted))
    }

    /// Total and used space over all disks of the snapshot.
    pub fn disk_totals(&self) -> (totals: Option<DiskTotals>)
        ensures
            totals == space_totals(self.disks@),
    {
        disk_totals(&self.disks)
    }
}

} // verus!
