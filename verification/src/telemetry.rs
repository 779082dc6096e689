//! Bounded rolling history of telemetry samples.
//!
//! Samples are CPU utilizations in basis points (hundredths of a percent).
//! The history is a fixed-capacity ordered sequence with ring-buffer
//! semantics: appending to a full history evicts exactly the oldest sample
//! and keeps the order of the remainder.

use vstd::prelude::*;

verus! {

/// One push into a bounded history: the value is appended at the tail, and
/// when the history is already full the oldest sample (at the front) leaves.
pub open spec fn push_model(s: Seq<u16>, capacity: int, v: u16) -> Seq<u16> {
    if s.len() < capacity {
        s.push(v)
    } else {
        s.skip(1).push(v)
    }
}

/// Repeated pushes, oldest first.
pub open spec fn push_all_model(s: Seq<u16>, capacity: int, vs: Seq<u16>) -> Seq<u16>
    decreases vs.len(),
{
    if vs.len() == 0 {
        s
    } else {
        push_all_model(push_model(s, capacity, vs[0]), capacity, vs.skip(1))
    }
}

/// Fixed-capacity ordered sequence of samples; the only mutation path is
/// `push`, which preserves insertion order and never lets the length pass
/// the capacity.
#[derive(Clone, Debug)]
pub struct TelemetryHistory {
    samples: Vec<u16>,
    capacity: usize,
}

impl View for TelemetryHistory {
    type V = Seq<u16>;

    closed spec fn view(&self) -> Seq<u16> {
        self.samples@
    }
}

impl TelemetryHistory {
    /// The fixed bound the history was created with.
    pub closed spec fn spec_capacity(self) -> int {
        self.capacity as int
    }

    /// The length never exceeds the capacity.
    pub open spec fn wf(self) -> bool {
        1 <= self.spec_capacity() && self@.len() <= self.spec_capacity()
    }

    /// An empty history bounded by `capacity`.
    pub fn new(capacity: usize) -> (h: Self)
        requires
            capacity >= 1,
        ensures
            h.wf(),
            h.spec_capacity() == capacity,
            h@ == Seq::<u16>::empty(),
    {
        TelemetryHistory { samples: Vec::new(), capacity }
    }

    /// A history bounded by `capacity` and already full of `value`, the
    /// flat baseline the dashboard chart starts from.
    pub fn filled(capacity: usize, value: u16) -> (h: Self)
        requires
            capacity >= 1,
        ensures
            h.wf(),
            h.spec_capacity() == capacity,
            h@ == Seq::new(capacity as nat, |i: int| value),
    {
        let samples: Vec<u16> = vec![value; capacity];
        TelemetryHistory { samples, capacity }
    }

    pub fn len(&self) -> (n: usize)
        ensures
            n == self@.len(),
    {
        self.samples.len()
    }

    pub fn capacity(&self) -> (c: usize)
        ensures
            c as int == self.spec_capacity(),
    {
        self.capacity
    }

    /// Read-only access to the samples, oldest first, for rendering.
    pub fn samples(&self) -> (s: &Vec<u16>)
        ensures
            s@ == self@,
    {
        &self.samples
    }

    /// Appends a sample, evicting the oldest one when the history is full.
    pub fn push(&mut self, v: u16)
        requires
            old(self).wf(),
        ensures
            final(self).wf(),
            final(self).spec_capacity() == old(self).spec_capacity(),
            final(self)@ == push_model(old(self)@, old(self).spec_capacity(), v),
    {
        if self.samples.len() == self.capacity {
            let ghost before = self.samples@;
            self.samples.remove(0);
            proof {
                assert(self.samples@ =~= before.skip(1));
            }
        }
        self.samples.push(v);
    }
}

/// Law: one push keeps the history within its capacity; on a full history
/// it evicts exactly the oldest sample, the remainder keeps its order, and
/// the new sample stands at the tail.
pub proof fn lemma_push_bounded(s: Seq<u16>, capacity: int, v: u16)
    requires
        1 <= capacity,
        s.len() <= capacity,
    ensures
        push_model(s, capacity, v).len() <= capacity,
        s.len() < capacity ==> push_model(s, capacity, v) == s.push(v),
        s.len() == capacity ==> forall|i: int|
            0 <= i < capacity - 1 ==> push_model(s, capacity, v)[i] == s[i + 1],
        push_model(s, capacity, v).last() == v,
{
}

/// Law: however many samples are pushed, a history within its capacity
/// stays within it.
pub proof fn lemma_history_never_exceeds(s: Seq<u16>, capacity: int, vs: Seq<u16>)
    requires
        1 <= capacity,
        s.len() <= capacity,
    ensures
        push_all_model(s, capacity, vs).len() <= capacity,
    decreases vs.len(),
{
    if vs.len() > 0 {
        lemma_history_never_exceeds(push_model(s, capacity, vs[0]), capacity, vs.skip(1));
    }
}

/// Live-chart state: the rolling CPU history behind the dashboard view.
#[derive(Clone, Debug)]
pub struct DashboardState {
    pub cpu_history: TelemetryHistory,
}

impl DashboardState {
    /// Starts with two minutes of flat-zero samples at the chart's
    /// resolution of 120 points.
    pub fn new() -> (d: Self)
        ensures
            d.cpu_history.wf(),
            d.cpu_history.spec_capacity() == 120,
            d.cpu_history@ == Seq::new(120, |i: int| 0u16),
    {
        DashboardState { cpu_history: TelemetryHistory::filled(120, 0) }
    }

    /// Records one sampled CPU utilization, in basis points.
    pub fn on_tick(&mut self, cpu_usage_bp: u16)
        requires
            old(self).cpu_history.wf(),
        ensures
            final(self).cpu_history.wf(),
            final(self).cpu_history.spec_capacity() == old(self).cpu_history.spec_capacity(),
            final(self).cpu_history@ == push_model(
                old(self).cpu_history@,
                old(self).cpu_history.spec_capacity(),
                cpu_usage_bp,
            ),
    {
        self.cpu_history.push(cpu_usage_bp);
    }
}

} // verus!
