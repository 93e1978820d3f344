//! Fixed-capacity history series.
//!
//! A series keeps the most recent `HISTORY_CAPACITY` samples of one metric in
//! chronological order. It is stored as a ring: a buffer that grows until it is
//! full and is then overwritten in place, oldest slot first, so that recording
//! a sample never shifts the others.

use vstd::prelude::*;

verus! {

/// Number of samples a history series holds.
pub const HISTORY_CAPACITY: usize = 60;

/// The last `n` items of `s`, or all of `s` where it holds no more than `n`.
pub open spec fn most_recent<T>(s: Seq<T>, n: nat) -> Seq<T> {
    if s.len() <= n {
        s
    } else {
        s.subrange(s.len() - n, s.len() as int)
    }
}

/// A series after one more sample: the sample becomes the newest entry, and the
/// oldest entry leaves once the capacity is exceeded.
pub open spec fn appended<T>(s: Seq<T>, value: T) -> Seq<T> {
    most_recent(s.push(value), HISTORY_CAPACITY as nat)
}

/// A series after the samples `values` were recorded one by one, first to last.
pub open spec fn appended_all<T>(s: Seq<T>, values: Seq<T>) -> Seq<T>
    decreases values.len(),
{
    if values.len() == 0 {
        s
    } else {
        appended(appended_all(s, values.drop_last()), values.last())
    }
}

/// A bounded, chronologically ordered series of samples (index 0 is the oldest).
pub struct History<T> {
    /// Ring storage. It grows to `HISTORY_CAPACITY` and keeps that length.
    slots: Vec<T>,
    /// Position in `slots` of the oldest sample; 0 until the ring is full.
    head: usize,
}

impl<T> View for History<T> {
    type V = Seq<T>;

    /// The samples from oldest to newest: the ring, turned so that the oldest
    /// slot comes first.
    closed spec fn view(&self) -> Seq<T> {
        self.slots@.subrange(self.head as int, self.slots@.len() as int) + self.slots@.subrange(
            0,
            self.head as int,
        )
    }
}

impl<T> History<T> {
    #[verifier::type_invariant]
    spec fn ring_ok(self) -> bool {
        &&& self.slots@.len() <= HISTORY_CAPACITY
        &&& self.head <= self.slots@.len()
        &&& self.head < HISTORY_CAPACITY
        &&& self.slots@.len() < HISTORY_CAPACITY ==> self.head == 0
    }

    /// Position in the ring of the sample that is `index` places after the
    /// oldest one.
    fn slot_of(&self, index: usize) -> (slot: usize)
        requires
            index < self@.len(),
        ensures
            slot < self.slots@.len(),
            self.slots@[slot as int] == self@[index as int],
    {
        proof {
            use_type_invariant(self);
        }
        if index < self.slots.len() - self.head {
            self.head + index
        } else {
            index - (self.slots.len() - self.head)
        }
    }

    /// An empty series. It takes up no room before its first sample.
    pub fn new() -> (series: Self)
        ensures
            series@ == Seq::<T>::empty(),
    {
        History { slots: Vec::new(), head: 0 }
    }

    /// Number of samples held; never more than `HISTORY_CAPACITY`.
    pub fn len(&self) -> (n: usize)
        ensures
            n == self@.len(),
            n <= HISTORY_CAPACITY,
    {
        proof {
            use_type_invariant(self);
        }
        self.slots.len()
    }

    /// Whether no sample was recorded yet.
    pub fn is_empty(&self) -> (empty: bool)
        ensures
            empty == (self@.len() == 0),
    {
        proof {
            use_type_invariant(self);
        }
        self.slots.len() == 0
    }

    /// Records `value` as the newest sample, evicting the oldest one if the
    /// series is full.
    pub fn append(&mut self, value: T)
        ensures
            final(self)@ == appended(old(self)@, value),
            final(self)@.len() <= HISTORY_CAPACITY,
            final(self)@.last() == value,
    {
        proof {
            use_type_invariant(&*self);
        }
        let ghost before = old(self)@;
        // The ring is taken out while it is changed, so that `self` is a valid
        // (empty) series at every point in between.
        let oldest = self.head;
        self.head = 0;
        let mut slots: Vec<T> = Vec::new();
        std::mem::swap(&mut slots, &mut self.slots);
        if slots.len() < HISTORY_CAPACITY {
            if slots.len() == 0 {
                // The ring gets all its room at once, with its first sample.
                slots.reserve(HISTORY_CAPACITY);
            }
            slots.push(value);
            self.slots = slots;
            assert(self@ =~= before.push(value));
        } else {
            slots.set(oldest, value);
            self.slots = slots;
            self.head = if oldest + 1 == HISTORY_CAPACITY {
                0
            } else {
                oldest + 1
            };
            assert(self@ =~= before.push(value).drop_first());
        }
    }

    /// The sample `index` places after the oldest one, if there is one.
    pub fn get(&self, index: usize) -> (sample: Option<&T>)
        ensures
            index < self@.len() ==> sample == Some(&self@[index as int]),
            index >= self@.len() ==> sample.is_none(),
    {
        proof {
            use_type_invariant(self);
        }
        if index < self.slots.len() {
            let slot = self.slot_of(index);
            Some(&self.slots[slot])
        } else {
            None
        }
    }

    /// The most recently recorded sample, if there is one.
    pub fn newest(&self) -> (sample: Option<&T>)
        ensures
            self@.len() > 0 ==> sample == Some(&self@.last()),
            self@.len() == 0 ==> sample.is_none(),
    {
        proof {
            use_type_invariant(self);
        }
        let n = self.slots.len();
        if n > 0 {
            let slot = self.slot_of(n - 1);
            Some(&self.slots[slot])
        } else {
            None
        }
    }
}

impl<T: Copy> History<T> {
    /// The samples from oldest to newest, copied out.
    pub fn as_sequence(&self) -> (samples: Vec<T>)
        ensures
            samples@ == self@,
    {
        proof {
            use_type_invariant(self);
        }
        let n = self.slots.len();
        let mut samples: Vec<T> = Vec::with_capacity(n);
        let mut index: usize = 0;
        while index < n
            invariant
                n == self@.len(),
                index <= n,
                samples@ == self@.take(index as int),
            decreases n - index,
        {
            let slot = self.slot_of(index);
            samples.push(self.slots[slot]);
            index = index + 1;
            assert(samples@ =~= self@.take(index as int));
        }
        assert(self@.take(n as int) =~= self@);
        samples
    }
}

/// Keeping the most recent `n` items after each of two steps is keeping the
/// most recent `n` items once, after both.
pub proof fn lemma_most_recent_push<T>(s: Seq<T>, value: T, n: nat)
    requires
        n > 0,
    ensures
        most_recent(most_recent(s, n).push(value), n) == most_recent(s.push(value), n),
{
    assert(most_recent(most_recent(s, n).push(value), n) =~= most_recent(s.push(value), n));
}

/// However many samples are recorded into a series, it never holds more than
/// `HISTORY_CAPACITY` of them, and it holds exactly the most recent ones, in
/// the order in which they were recorded: the oldest samples are the ones that
/// leave.
pub proof fn lemma_appends_keep_most_recent<T>(s: Seq<T>, values: Seq<T>)
    requires
        s.len() <= HISTORY_CAPACITY,
    ensures
        appended_all(s, values).len() <= HISTORY_CAPACITY,
        appended_all(s, values) == most_recent(s + values, HISTORY_CAPACITY as nat),
        values.len() > HISTORY_CAPACITY ==> appended_all(s, values) == values.subrange(
            values.len() - HISTORY_CAPACITY,
            values.len() as int,
        ),
    decreases values.len(),
{
    let cap = HISTORY_CAPACITY as nat;
    if values.len() == 0 {
        assert(s + values =~= s);
    } else {
        let front = values.drop_last();
        lemma_appends_keep_most_recent(s, front);
        lemma_most_recent_push(s + front, values.last(), cap);
        assert((s + front).push(values.last()) =~= s + values);
    }
    if values.len() > HISTORY_CAPACITY {
        assert(most_recent(s + values, cap) =~= values.subrange(
            values.len() - HISTORY_CAPACITY,
            values.len() as int,
        ));
    }
}

/// A series that starts empty holds, after any number of samples, the last
/// `HISTORY_CAPACITY` of them (all of them while they are fewer).
pub proof fn lemma_recorded_window<T>(values: Seq<T>)
    ensures
        appended_all(Seq::<T>::empty(), values) == most_recent(values, HISTORY_CAPACITY as nat),
{
    lemma_appends_keep_most_recent(Seq::<T>::empty(), values);
    assert(Seq::<T>::empty() + values =~= values);
}

} // verus!
