//! A bounded window over recent CPU-load samples.
//!
//! Samples are whole percentages. The window keeps the most recent
//! [`MAX_SAMPLES`] of them in a ring: while there is room a sample is
//! appended, afterwards it overwrites the oldest one.

use vstd::prelude::*;

verus! {

/// Number of samples the window holds.
pub const MAX_SAMPLES: usize = 10;

/// Sum of a run of samples.
pub open spec fn sum_of(samples: Seq<u32>) -> nat
    decreases samples.len(),
{
    if samples.len() == 0 {
        0
    } else {
        sum_of(samples.drop_last()) + samples.last() as nat
    }
}

/// The mathematical content of a [`CpuMonitor`].
pub struct CpuWindow {
    /// The samples held, by slot of the ring.
    pub samples: Seq<u32>,
    /// The slot that the next sample goes to once the ring is full.
    pub cursor: nat,
    /// How many samples were recorded so far (the counter stops at
    /// `u64::MAX`).
    pub sample_count: nat,
}

impl CpuWindow {
    /// The window that holds nothing.
    pub open spec fn empty() -> CpuWindow {
        CpuWindow { samples: Seq::empty(), cursor: 0, sample_count: 0 }
    }

    /// What every window reachable from the empty one satisfies.
    pub open spec fn wf(self) -> bool {
        &&& self.samples.len() <= MAX_SAMPLES
        &&& self.cursor < MAX_SAMPLES
        &&& self.sample_count <= u64::MAX
        &&& self.samples.len() <= self.sample_count
        &&& self.samples.len() < MAX_SAMPLES ==> self.sample_count == self.samples.len()
        &&& self.sample_count < u64::MAX ==> self.cursor == self.sample_count % 10
    }

    /// The window after one more sample.
    pub open spec fn recorded(self, percent: u32) -> CpuWindow {
        CpuWindow {
            samples: if self.samples.len() < MAX_SAMPLES {
                self.samples.push(percent)
            } else {
                self.samples.update(self.cursor as int, percent)
            },
            cursor: (self.cursor + 1) % (MAX_SAMPLES as nat),
            sample_count: if self.sample_count < u64::MAX {
                self.sample_count + 1
            } else {
                self.sample_count
            },
        }
    }

    /// Sum of the samples held.
    pub open spec fn total(self) -> nat {
        sum_of(self.samples)
    }

    /// Mean of the samples held, rounded down; 0 for an empty window.
    pub open spec fn average(self) -> nat {
        if self.samples.len() == 0 {
            0
        } else {
            self.total() / self.samples.len()
        }
    }

    /// The exact mean of the samples held is above `threshold`. An empty
    /// window has mean 0, which is above nothing.
    pub open spec fn mean_exceeds(self, threshold: u32) -> bool {
        self.samples.len() > 0 && self.total() > threshold * self.samples.len()
    }
}

/// Rolling monitor of CPU load.
pub struct CpuMonitor {
    cpu_samples: Vec<u32>,
    cursor: usize,
    sample_count: u64,
}

impl View for CpuMonitor {
    type V = CpuWindow;

    closed spec fn view(&self) -> CpuWindow {
        CpuWindow {
            samples: self.cpu_samples@,
            cursor: self.cursor as nat,
            sample_count: self.sample_count as nat,
        }
    }
}

/// Adding a sample at the end raises the sum by that sample.
pub proof fn lemma_sum_push(samples: Seq<u32>, x: u32)
    ensures
        sum_of(samples.push(x)) == sum_of(samples) + x,
{
    assert(samples.push(x).drop_last() =~= samples);
}

/// The sum of `n` samples is at most `n` times the largest sample value.
pub proof fn lemma_sum_bound(samples: Seq<u32>)
    ensures
        sum_of(samples) <= samples.len() * u32::MAX,
    decreases samples.len(),
{
    if samples.len() > 0 {
        lemma_sum_bound(samples.drop_last());
        assert(samples.len() * u32::MAX == (samples.len() - 1) * u32::MAX + u32::MAX)
            by (nonlinear_arith);
    }
}

impl CpuMonitor {
    /// Well-formedness: the content is a window reachable from the empty
    /// one.
    pub open spec fn wf(&self) -> bool {
        self@.wf()
    }

    /// A monitor that has seen no sample.
    pub fn new() -> (monitor: CpuMonitor)
        ensures
            monitor.wf(),
            monitor@ == CpuWindow::empty(),
    {
        CpuMonitor { cpu_samples: Vec::new(), cursor: 0, sample_count: 0 }
    }

    /// Records one sample, in percent. While fewer than [`MAX_SAMPLES`]
    /// are held it is appended; afterwards it overwrites the oldest.
    pub fn record_cpu_usage(&mut self, cpu_percent: u32)
        requires
            old(self).wf(),
        ensures
            final(self).wf(),
            final(self)@ == old(self)@.recorded(cpu_percent),
    {
        if self.cpu_samples.len() < MAX_SAMPLES {
            self.cpu_samples.push(cpu_percent);
        } else {
            self.cpu_samples.set(self.cursor, cpu_percent);
        }
        self.cursor = if self.cursor + 1 == MAX_SAMPLES {
            0
        } else {
            self.cursor + 1
        };
        if self.sample_count < u64::MAX {
            self.sample_count = self.sample_count + 1;
        }
    }

    /// Sum of the samples held.
    pub fn sample_total(&self) -> (sum: u64)
        requires
            self.wf(),
        ensures
            sum == self@.total(),
    {
        let n: usize = self.cpu_samples.len();
        let mut sum: u64 = 0;
        let mut i: usize = 0;
        while i < n
            invariant
                n == self.cpu_samples@.len(),
                n <= MAX_SAMPLES,
                i <= n,
                sum == sum_of(self.cpu_samples@.subrange(0, i as int)),
                sum <= i * u32::MAX,
            decreases n - i,
        {
            proof {
                lemma_sum_push(self.cpu_samples@.subrange(0, i as int), self.cpu_samples@[i as int]);
                assert(self.cpu_samples@.subrange(0, i + 1) =~= self.cpu_samples@.subrange(
                    0,
                    i as int,
                ).push(self.cpu_samples@[i as int]));
                assert((i + 1) * u32::MAX == i * u32::MAX + u32::MAX) by (nonlinear_arith);
                assert(i * u32::MAX <= 10 * u32::MAX) by (nonlinear_arith)
                    requires
                        i <= 10,
                ;
            }
            sum = sum + self.cpu_samples[i] as u64;
            i = i + 1;
        }
        assert(self.cpu_samples@.subrange(0, n as int) =~= self.cpu_samples@);
        sum
    }

    /// Mean of the samples held, rounded down to a whole percent; 0 when
    /// none is held.
    pub fn average_cpu_usage(&self) -> (percent: u32)
        requires
            self.wf(),
        ensures
            percent == self@.average(),
    {
        let n: usize = self.cpu_samples.len();
        if n == 0 {
            0
        } else {
            let sum: u64 = self.sample_total();
            proof {
                lemma_sum_bound(self.cpu_samples@);
                assert(sum as nat / n as nat <= u32::MAX) by (nonlinear_arith)
                    requires
                        sum <= n * u32::MAX,
                        n > 0,
                ;
            }
            (sum / n as u64) as u32
        }
    }

    /// Whether the exact mean of the samples held is above `threshold`
    /// percent.
    pub fn should_downgrade(&self, threshold: u32) -> (high: bool)
        requires
            self.wf(),
        ensures
            high == self@.mean_exceeds(threshold),
    {
        let n: usize = self.cpu_samples.len();
        if n == 0 {
            false
        } else {
            let sum: u64 = self.sample_total();
            proof {
                assert(threshold * n <= u32::MAX * 10) by (nonlinear_arith)
                    requires
                        threshold <= u32::MAX,
                        n <= 10,
                ;
            }
            sum > threshold as u64 * n as u64
        }
    }

    /// Number of samples held.
    pub fn len(&self) -> (n: usize)
        ensures
            n == self@.samples.len(),
    {
        self.cpu_samples.len()
    }

    /// Number of samples recorded since the monitor was made.
    pub fn sample_count(&self) -> (n: u64)
        ensures
            n == self@.sample_count,
    {
        self.sample_count
    }
}

/// The rounded mean never overstates: a rounded mean above the threshold
/// means that the exact mean is above it, and an exact mean above the
/// threshold leaves the rounded mean at or above it.
pub proof fn lemma_average_and_downgrade(w: CpuWindow, threshold: u32)
    requires
        w.wf(),
    ensures
        w.average() > threshold ==> w.mean_exceeds(threshold),
        w.mean_exceeds(threshold) ==> w.average() >= threshold,
        w.samples.len() == 0 ==> w.average() == 0 && !w.mean_exceeds(threshold),
{
    let n = w.samples.len();
    let s = w.total();
    if n > 0 {
        assert(s / n > threshold ==> s > threshold * n) by (nonlinear_arith)
            requires
                n > 0,
        ;
        assert(s > threshold * n ==> s / n >= threshold) by (nonlinear_arith)
            requires
                n > 0,
        ;
    }
}

/// The window after the samples of `history` were recorded in order,
/// starting from the empty window.
pub open spec fn fed(history: Seq<u32>) -> CpuWindow
    decreases history.len(),
{
    if history.len() == 0 {
        CpuWindow::empty()
    } else {
        fed(history.drop_last()).recorded(history.last())
    }
}

/// Position in a history of `n` samples of the sample that slot `i` of
/// the ring holds: over the last ten positions, the one that leaves the
/// remainder `i`.
pub open spec fn source_index(n: nat, i: int) -> int {
    if n <= MAX_SAMPLES {
        i
    } else {
        (n - 10) + (i - (n - 10)) % 10
    }
}

/// Recording keeps a window well-formed.
pub proof fn lemma_recorded_wf(w: CpuWindow, percent: u32)
    requires
        w.wf(),
    ensures
        w.recorded(percent).wf(),
{
}

/// How the source position of a slot moves when one more sample is
/// recorded into a full ring.
proof fn lemma_source_index_step(n: nat, i: int)
    requires
        n > MAX_SAMPLES,
        0 <= i < MAX_SAMPLES,
    ensures
        n - 10 <= source_index(n, i) < n,
        i == (n - 1) % 10 ==> source_index(n, i) == n - 1,
        i != (n - 1) % 10 ==> source_index(n, i) == source_index((n - 1) as nat, i),
{
    let m = (n - 1) as nat;
    let a = (i - (n - 10)) % 10;
    let b = (i - (m - 10)) % 10;
    let r = (n - 1) % 10;
    assert(0 <= a < 10 && 0 <= b < 10 && 0 <= r < 10);
    assert((i - (n - 10)) == 10 * ((i - (n - 10)) / 10) + a);
    assert((i - (m - 10)) == 10 * ((i - (m - 10)) / 10) + b);
    assert((n - 1) == 10 * ((n - 1) / 10) + r);
    if m <= MAX_SAMPLES {
        assert(m == 10);
    }
}

/// The ring holds the latest samples, first in first out: after any run
/// of samples it holds as many as were recorded, at most ten, and each
/// slot holds the latest sample that was written to it, so that the
/// eleventh sample takes the place of the first, the twelfth that of the
/// second, and so on.
pub proof fn lemma_ring_holds_latest(history: Seq<u32>)
    requires
        history.len() < u64::MAX,
    ensures
        fed(history).wf(),
        fed(history).sample_count == history.len(),
        fed(history).samples.len() == if history.len() <= MAX_SAMPLES {
            history.len()
        } else {
            MAX_SAMPLES as nat
        },
        forall|i: int|
            0 <= i < fed(history).samples.len() ==> {
                &&& 0 <= source_index(history.len(), i) < history.len()
                &&& history.len() - 10 <= source_index(history.len(), i)
                &&& #[trigger] fed(history).samples[i] == history[source_index(history.len(), i)]
            },
    decreases history.len(),
{
    if history.len() > 0 {
        let n = history.len();
        let earlier = history.drop_last();
        let before = fed(earlier);
        let after = fed(history);
        lemma_ring_holds_latest(earlier);
        lemma_recorded_wf(before, history.last());
        assert(after == before.recorded(history.last()));
        if earlier.len() < MAX_SAMPLES {
            assert(after.samples == before.samples.push(history.last()));
            assert forall|i: int| 0 <= i < after.samples.len() implies {
                &&& 0 <= source_index(n, i) < n
                &&& n - 10 <= source_index(n, i)
                &&& #[trigger] after.samples[i] == history[source_index(n, i)]
            } by {
                if i < before.samples.len() {
                    assert(before.samples[i] == earlier[source_index(earlier.len(), i)]);
                }
            }
        } else {
            assert(before.cursor == earlier.len() % 10);
            assert(after.samples == before.samples.update(before.cursor as int, history.last()));
            assert forall|i: int| 0 <= i < after.samples.len() implies {
                &&& 0 <= source_index(n, i) < n
                &&& n - 10 <= source_index(n, i)
                &&& #[trigger] after.samples[i] == history[source_index(n, i)]
            } by {
                lemma_source_index_step(n, i);
                if i != before.cursor {
                    assert(before.samples[i] == earlier[source_index(earlier.len(), i)]);
                }
            }
        }
    }
}

} // verus!
