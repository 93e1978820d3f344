//! Rates derived from cumulative counters.
//!
//! A cumulative counter (bytes received, bytes sent) only ever grows while its
//! source lives. Its rate is the growth between the two most recent samples of
//! its history, one sampling interval apart. When a source starts over and the
//! counter falls back, the rate of that interval is 0, never negative.

use crate::history::History;
use vstd::prelude::*;

verus! {

/// Growth of a counter from one reading to the next; 0 where it fell back.
pub open spec fn counter_delta(previous: u64, current: u64) -> u64 {
    if current >= previous {
        (current - previous) as u64
    } else {
        0
    }
}

/// Growth of each of two counters that are read together.
pub open spec fn pair_delta(previous: (u64, u64), current: (u64, u64)) -> (u64, u64) {
    (counter_delta(previous.0, current.0), counter_delta(previous.1, current.1))
}

/// Rate of a counter series: the growth between its two newest samples, and 0
/// while it holds fewer than two.
pub open spec fn rate_of(samples: Seq<u64>) -> u64 {
    if samples.len() < 2 {
        0
    } else {
        counter_delta(samples[samples.len() - 2], samples[samples.len() - 1])
    }
}

/// Rates of a series of counter pairs, counter by counter.
pub open spec fn pair_rate_of(samples: Seq<(u64, u64)>) -> (u64, u64) {
    if samples.len() < 2 {
        (0, 0)
    } else {
        pair_delta(samples[samples.len() - 2], samples[samples.len() - 1])
    }
}

/// The rate in each interval of a series of counter pairs: entry `i` is the
/// growth from sample `i` to sample `i + 1`.
pub open spec fn rate_series_of(samples: Seq<(u64, u64)>) -> Seq<(u64, u64)> {
    if samples.len() < 2 {
        Seq::empty()
    } else {
        Seq::new((samples.len() - 1) as nat, |i: int| pair_delta(samples[i], samples[i + 1]))
    }
}

/// Growth of a counter from `previous` to `current`, clamped at 0.
pub fn delta(previous: u64, current: u64) -> (growth: u64)
    ensures
        growth == counter_delta(previous, current),
        current >= previous ==> growth == current - previous,
        current < previous ==> growth == 0,
{
    if current >= previous {
        current - previous
    } else {
        0
    }
}

impl History<u64> {
    /// Current rate of the counter, per sampling interval.
    pub fn rate(&self) -> (rate: u64)
        ensures
            rate == rate_of(self@),
            rate >= 0,
            self@.len() < 2 ==> rate == 0,
            self@.len() >= 2 && self@[self@.len() - 1] - self@[self@.len() - 2] >= 0 ==> rate
                == self@[self@.len() - 1] - self@[self@.len() - 2],
    {
        let n = self.len();
        if n < 2 {
            return 0;
        }
        match (self.get(n - 2), self.get(n - 1)) {
            (Some(previous), Some(current)) => delta(*previous, *current),
            _ => 0,
        }
    }
}

impl History<(u64, u64)> {
    /// Current rate of each of the two counters, per sampling interval.
    pub fn rate(&self) -> (rate: (u64, u64))
        ensures
            rate == pair_rate_of(self@),
            self@.len() < 2 ==> rate == (0u64, 0u64),
            self@.len() >= 2 && self@[self@.len() - 1].0 - self@[self@.len() - 2].0 >= 0
                ==> rate.0 == self@[self@.len() - 1].0 - self@[self@.len() - 2].0,
            self@.len() >= 2 && self@[self@.len() - 1].1 - self@[self@.len() - 2].1 >= 0
                ==> rate.1 == self@[self@.len() - 1].1 - self@[self@.len() - 2].1,
    {
        let n = self.len();
        if n < 2 {
            return (0, 0);
        }
        match (self.get(n - 2), self.get(n - 1)) {
            (Some(previous), Some(current)) => (
                delta(previous.0, current.0),
                delta(previous.1, current.1),
            ),
            _ => (0, 0),
        }
    }

    /// The rate of both counters in every interval that the series covers,
    /// oldest interval first.
    pub fn rate_series(&self) -> (rates: Vec<(u64, u64)>)
        ensures
            rates@ == rate_series_of(self@),
    {
        let samples = self.as_sequence();
        let mut rates: Vec<(u64, u64)> = Vec::new();
        let mut index: usize = 1;
        while index < samples.len()
            invariant
                samples@ == self@,
                1 <= index,
                samples@.len() >= 2 ==> index <= samples@.len(),
                samples@.len() >= 2 ==> rates@ == rate_series_of(self@).take(index - 1),
                samples@.len() < 2 ==> rates@ == Seq::<(u64, u64)>::empty(),
            decreases samples.len() - index,
        {
            let previous = samples[index - 1];
            let current = samples[index];
            rates.push((delta(previous.0, current.0), delta(previous.1, current.1)));
            index = index + 1;
            assert(rates@ =~= rate_series_of(self@).take(index - 1));
        }
        assert(samples@.len() >= 2 ==> rate_series_of(self@).take(index - 1) =~= rate_series_of(
            self@,
        ));
        rates
    }
}

/// The largest rate that occurs in `rates`, over both counters; 0 where there
/// is none.
pub fn peak_rate(rates: &Vec<(u64, u64)>) -> (peak: u64)
    ensures
        forall|i: int| 0 <= i < rates@.len() ==> rates@[i].0 <= peak && rates@[i].1 <= peak,
        rates@.len() == 0 ==> peak == 0,
        rates@.len() > 0 ==> exists|i: int|
            0 <= i < rates@.len() && (rates@[i].0 == peak || rates@[i].1 == peak),
{
    let mut peak: u64 = 0;
    let mut index: usize = 0;
    while index < rates.len()
        invariant
            index <= rates@.len(),
            forall|i: int| 0 <= i < index ==> rates@[i].0 <= peak && rates@[i].1 <= peak,
            index == 0 ==> peak == 0,
            index > 0 ==> exists|i: int|
                0 <= i < index && (rates@[i].0 == peak || rates@[i].1 == peak),
        decreases rates.len() - index,
    {
        let (down, up) = rates[index];
        if down > peak {
            peak = down;
        }
        if up > peak {
            peak = up;
        }
        index = index + 1;
    }
    peak
}

} // verus!
