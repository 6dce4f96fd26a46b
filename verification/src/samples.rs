use vstd::prelude::*;

verus! {

/// The most samples a ring can hold: eight cycles of an eight-phase
/// pattern.
pub const MAX_RING_SAMPLES: usize = 64;

/// A bounded ring of the most recent interval samples, in microseconds,
/// with a count of every sample ever pushed.
#[derive(Debug)]
pub struct SampleRing {
    values: Vec<u64>,
    capacity: u8,
    len: u8,
    cursor: u8,
    pushed: u32,
}

impl SampleRing {
    /// The storage has `capacity` slots; the fill level and write position
    /// lie within the capacity; while the ring is filling the write position
    /// is the fill level; and no more samples are retained than were pushed.
    #[verifier::type_invariant]
    closed spec fn wf(&self) -> bool {
        &&& self.values@.len() == self.capacity
        &&& 0 < self.capacity <= MAX_RING_SAMPLES
        &&& self.len <= self.capacity
        &&& self.cursor < self.capacity
        &&& self.len < self.capacity ==> self.cursor == self.len
        &&& self.len <= self.pushed
    }

    /// The retained samples, oldest first.
    pub closed spec fn window(&self) -> Seq<u64> {
        if self.len < self.capacity {
            self.values@.subrange(0, self.len as int)
        } else {
            self.values@.subrange(self.cursor as int, self.capacity as int) + self.values@.subrange(
                0,
                self.cursor as int,
            )
        }
    }

    /// The number of samples the ring holds when full.
    pub closed spec fn capacity_spec(&self) -> nat {
        self.capacity as nat
    }

    /// How many samples were ever pushed, saturating at `u32::MAX`.
    pub closed spec fn pushed_spec(&self) -> nat {
        self.pushed as nat
    }

    /// Creates an empty ring that keeps the `capacity` most recent samples.
    pub fn new(capacity: u8) -> (r: SampleRing)
        requires
            0 < capacity <= MAX_RING_SAMPLES,
        ensures
            r.window() == Seq::<u64>::empty(),
            r.capacity_spec() == capacity,
            r.pushed_spec() == 0,
    {
        let mut values: Vec<u64> = Vec::new();
        let n = capacity as usize;
        for _i in 0..n
            invariant
                values@.len() == _i,
        {
            values.push(0);
        }
        let r = SampleRing { values, capacity, len: 0, cursor: 0, pushed: 0 };
        assert(r.window() =~= Seq::<u64>::empty());
        r
    }

    /// Adds a sample, discarding the oldest one when the ring is full.
    pub fn push(&mut self, sample: u64)
        ensures
            final(self).capacity_spec() == old(self).capacity_spec(),
            final(self).window() == if old(self).window().len() < old(self).capacity_spec() {
                old(self).window().push(sample)
            } else {
                old(self).window().drop_first().push(sample)
            },
            final(self).pushed_spec() == if old(self).pushed_spec() < u32::MAX {
                old(self).pushed_spec() + 1
            } else {
                old(self).pushed_spec()
            },
    {
        proof {
            use_type_invariant(&*self);
        }
        let ghost old_window = self.window();
        let mut current = SampleRing::new(1);
        std::mem::swap(&mut current, self);
        let SampleRing { mut values, capacity, len, cursor, pushed } = current;
        values.set(cursor as usize, sample);
        let len = if len < capacity {
            len + 1
        } else {
            len
        };
        proof {
            if cursor + 1 < capacity {
                vstd::arithmetic::div_mod::lemma_small_mod((cursor + 1) as nat, capacity as nat);
            } else {
                vstd::arithmetic::div_mod::lemma_mod_self_0(capacity as int);
            }
        }
        let next = SampleRing {
            values,
            capacity,
            len,
            cursor: (cursor + 1) % capacity,
            pushed: pushed.saturating_add(1),
        };
        proof {
            if old(self).len < old(self).capacity {
                assert(next.window() =~= old_window.push(sample));
            } else {
                assert(next.window() =~= old_window.drop_first().push(sample));
            }
        }
        *self = next;
    }

    /// Returns the `index`-th retained sample, oldest first.
    pub fn logical_value(&self, index: usize) -> (v: u64)
        requires
            index < self.window().len(),
        ensures
            v == self.window()[index as int],
    {
        proof {
            use_type_invariant(self);
        }
        let len = self.len as usize;
        let capacity = self.capacity as usize;
        let start = (self.cursor as usize + capacity - len) % capacity;
        proof {
            if self.len < self.capacity {
                assert(self.cursor + capacity - len == capacity);
                vstd::arithmetic::div_mod::lemma_mod_self_0(capacity as int);
            } else {
                assert(self.cursor + capacity - len == self.cursor);
                vstd::arithmetic::div_mod::lemma_small_mod(self.cursor as nat, capacity as nat);
            }
            if start + index < capacity {
                vstd::arithmetic::div_mod::lemma_small_mod((start + index) as nat, capacity as nat);
            } else {
                vstd::arithmetic::div_mod::lemma_mod_add_multiples_vanish(
                    (start + index - capacity) as int,
                    capacity as int,
                );
                vstd::arithmetic::div_mod::lemma_small_mod(
                    (start + index - capacity) as nat,
                    capacity as nat,
                );
            }
        }
        self.values[(start + index) % capacity]
    }

    /// Returns the retained samples, oldest first.
    pub fn samples(&self) -> (r: Vec<u64>)
        ensures
            r@ == self.window(),
    {
        proof {
            use_type_invariant(self);
        }
        let mut r: Vec<u64> = Vec::new();
        let len = self.len as usize;
        for i in 0..len
            invariant
                len == self.window().len(),
                r@ == self.window().subrange(0, i as int),
        {
            r.push(self.logical_value(i));
            proof {
                assert(r@ =~= self.window().subrange(0, i + 1));
            }
        }
        proof {
            assert(self.window().subrange(0, len as int) =~= self.window());
        }
        r
    }

    /// Returns how many samples the ring holds.
    pub fn len(&self) -> (n: usize)
        ensures
            n == self.window().len(),
    {
        proof {
            use_type_invariant(self);
        }
        self.len as usize
    }

    /// Returns how many samples the ring holds when full.
    pub fn capacity(&self) -> (n: u8)
        ensures
            n == self.capacity_spec(),
    {
        self.capacity
    }

    /// Returns how many samples were ever pushed, saturating at `u32::MAX`.
    pub fn pushed(&self) -> (n: u32)
        ensures
            n == self.pushed_spec(),
    {
        self.pushed
    }

    /// Returns whether the ring has seen enough samples to test a cycle of
    /// `period` phases repeated `minimum_cycles` times: at least that many
    /// samples, and no fewer than `minimum_samples`, were ever pushed, and at
    /// least that many are retained.
    pub fn holds_cycles(&self, period: u8, minimum_cycles: u8, minimum_samples: u32) -> (b: bool)
        ensures
            b == (self.pushed_spec() >= minimum_samples && self.pushed_spec() >= period
                * minimum_cycles && self.window().len() >= period * minimum_cycles),
    {
        proof {
            use_type_invariant(self);
        }
        assert(period as u32 * minimum_cycles as u32 <= 255 * 255) by (nonlinear_arith)
            requires
                period <= 255,
                minimum_cycles <= 255,
        ;
        let needed = period as u32 * minimum_cycles as u32;
        let required = if minimum_samples > needed {
            minimum_samples
        } else {
            needed
        };
        self.pushed >= required && self.len as u32 >= needed
    }

    /// Returns, oldest first, the samples of one phase of a cycle of
    /// `period` samples.
    ///
    /// Only the most recent whole cycles are used, and a sample's phase is
    /// its position among all samples ever pushed, modulo `period`.
    pub fn phase_samples(&self, period: usize, phase: usize) -> (r: Vec<u64>)
        requires
            0 < period,
            phase < period,
        ensures
            r@ == phase_filter(
                self.window(),
                self.window().len() - (self.window().len() as int / period as int) * period,
                self.window().len() as int,
                self.pushed_spec() - self.window().len(),
                period as int,
                phase as int,
            ),
    {
        proof {
            use_type_invariant(self);
        }
        let len = self.len as usize;
        let cycles = len / period;
        proof {
            assert(cycles * period <= len) by (nonlinear_arith)
                requires
                    cycles == len / period,
                    0 < period,
            {
            }
        }
        let usable_len = cycles * period;
        let start_offset = len - usable_len;
        let oldest_global = self.pushed as usize - len;
        let mut r: Vec<u64> = Vec::new();
        let mut index = start_offset;
        while index < len
            invariant
                len == self.window().len(),
                start_offset <= index <= len,
                start_offset == len - (len as int / period as int) * period,
                oldest_global == self.pushed_spec() - len,
                0 < period,
                phase < period,
                r@ == phase_filter(
                    self.window(),
                    start_offset as int,
                    index as int,
                    oldest_global as int,
                    period as int,
                    phase as int,
                ),
            decreases len - index,
        {
            if (oldest_global + index) % period == phase {
                r.push(self.logical_value(index));
            }
            index = index + 1;
        }
        r
    }
}

/// The samples of `w` at positions `lo..hi` whose global position
/// `first_global + k` falls in phase `phase` of a `period`-long cycle,
/// oldest first.
pub open spec fn phase_filter(
    w: Seq<u64>,
    lo: int,
    hi: int,
    first_global: int,
    period: int,
    phase: int,
) -> Seq<u64>
    decreases hi - lo,
{
    if hi <= lo {
        Seq::empty()
    } else {
        let prior = phase_filter(w, lo, hi - 1, first_global, period, phase);
        if (first_global + hi - 1) % period == phase {
            prior.push(w[hi - 1])
        } else {
            prior
        }
    }
}

/// Whether `s` is in non-decreasing order.
pub open spec fn is_sorted(s: Seq<u64>) -> bool {
    forall|i: int, j: int| 0 <= i <= j < s.len() ==> s[i] <= s[j]
}

/// Returns the samples in non-decreasing order.
pub fn sorted_samples(values: &Vec<u64>) -> (r: Vec<u64>)
    ensures
        is_sorted(r@),
        r@.to_multiset() == values@.to_multiset(),
{
    broadcast use vstd::seq_lib::to_multiset_insert;

    let mut r: Vec<u64> = Vec::new();
    let n = values.len();
    proof {
        assert(values@.subrange(0, 0) =~= r@);
    }
    for i in 0..n
        invariant
            n == values@.len(),
            is_sorted(r@),
            r@.to_multiset() == values@.subrange(0, i as int).to_multiset(),
    {
        let x = values[i];
        let mut pos: usize = 0;
        while pos < r.len() && r[pos] <= x
            invariant
                pos <= r@.len(),
                forall|k: int| 0 <= k < pos ==> r@[k] <= x,
            decreases r@.len() - pos,
        {
            pos = pos + 1;
        }
        let ghost before = r@;
        r.insert(pos, x);
        proof {
            assert(r@ == before.insert(pos as int, x));
            assert forall|a: int, b: int| 0 <= a <= b < r@.len() implies r@[a] <= r@[b] by {
                if a < pos as int && b == pos as int {
                } else if a == pos as int && b > pos as int {
                    assert(before[b - 1] > x || pos == before.len());
                    if pos < before.len() {
                        assert(before[pos as int] > x);
                        assert(before[pos as int] <= before[b - 1]);
                    }
                }
            }
            assert(values@.subrange(0, i + 1) =~= values@.subrange(0, i as int).push(x));
            vstd::seq_lib::to_multiset_build(values@.subrange(0, i as int), x);
            vstd::seq_lib::to_multiset_insert(before, pos as int, x);
        }
    }
    proof {
        assert(values@.subrange(0, n as int) =~= values@);
    }
    r
}

/// The two middle samples of a non-empty sorted list: the same sample twice
/// for an odd length, the lower and upper middle for an even length. Their
/// mean is the median.
pub fn middle_pair(sorted: &Vec<u64>) -> (r: (u64, u64))
    requires
        sorted@.len() > 0,
    ensures
        sorted@.len() % 2 == 1 ==> r == (sorted@[sorted@.len() as int / 2], sorted@[sorted@.len() as int / 2]),
        sorted@.len() % 2 == 0 ==> r == (sorted@[sorted@.len() as int / 2 - 1], sorted@[sorted@.len() as int / 2]),
{
    let midpoint = sorted.len() / 2;
    if sorted.len() % 2 == 0 {
        (sorted[midpoint - 1], sorted[midpoint])
    } else {
        (sorted[midpoint], sorted[midpoint])
    }
}

/// The distance of every sample from `center`.
pub fn absolute_deviations(values: &Vec<u64>, center: u64) -> (r: Vec<u64>)
    ensures
        r@.len() == values@.len(),
        forall|i: int|
            0 <= i < r@.len() ==> #[trigger] r@[i] == if values@[i] >= center {
                values@[i] - center
            } else {
                center - values@[i]
            },
{
    let mut r: Vec<u64> = Vec::new();
    for i in 0..values.len()
        invariant
            r@.len() == i,
            forall|k: int|
                0 <= k < i ==> #[trigger] r@[k] == if values@[k] >= center {
                    values@[k] - center
                } else {
                    center - values@[k]
                },
    {
        let v = values[i];
        r.push(if v >= center { v - center } else { center - v });
    }
    r
}

} // verus!
