//! Named scalar metric streams with strictly increasing step counters.
//!
//! Each stream owns its own counter, so the train and validation step
//! machines can record losses independently, and the scheduler can record
//! the resolved rate at the global optimizer step. Values are fixed-point
//! scalars in the caller's chosen unit.

use vstd::prelude::*;

verus! {

/// One recorded measurement of a stream.
pub struct Metric {
    pub step: u64,
    pub value: u64,
}

/// One named stream; `floor` is the lowest step the next record may use, so
/// recorded steps strictly increase.
pub struct MetricStream {
    pub name: String,
    pub floor: u64,
    pub entries: Vec<Metric>,
}

impl MetricStream {
    pub open spec fn wf(&self) -> bool {
        &&& forall|i: int| 0 <= i < self.entries@.len() ==> (#[trigger] self.entries@[i]).step
            < self.floor
        &&& forall|i: int, j: int|
            0 <= i < j < self.entries@.len() ==> self.entries@[i].step < self.entries@[j].step
    }
}

/// The sink that owns every metric stream of a run.
pub struct MetricsSink {
    pub streams: Vec<MetricStream>,
}

impl MetricsSink {
    pub open spec fn wf(&self) -> bool {
        forall|s: int| 0 <= s < self.streams@.len() ==> (#[trigger] self.streams@[s]).wf()
    }

    pub fn new() -> (sink: Self)
        ensures
            sink.wf(),
            sink.streams@.len() == 0,
    {
        MetricsSink { streams: Vec::new() }
    }

    /// Open a new empty stream and return its handle.
    pub fn add_stream(&mut self, name: String) -> (idx: usize)
        requires
            old(self).wf(),
        ensures
            final(self).wf(),
            idx == old(self).streams@.len(),
            final(self).streams@.len() == old(self).streams@.len() + 1,
            forall|s: int|
                0 <= s < old(self).streams@.len() ==> final(self).streams@[s] == old(
                    self,
                ).streams@[s],
            final(self).streams@[idx as int].entries@.len() == 0,
            final(self).streams@[idx as int].floor == 0,
    {
        let idx = self.streams.len();
        self.streams.push(MetricStream { name, floor: 0, entries: Vec::new() });
        idx
    }

    /// Record `value` on stream `idx` at `step`. The caller must not move
    /// backwards: `step` may not lie under the stream's floor, and afterwards
    /// the floor sits just above `step`.
    pub fn record(&mut self, idx: usize, value: u64, step: u64)
        requires
            old(self).wf(),
            idx < old(self).streams@.len(),
            step >= old(self).streams@[idx as int].floor,
            step < u64::MAX,
        ensures
            final(self).wf(),
            final(self).streams@.len() == old(self).streams@.len(),
            forall|s: int|
                0 <= s < old(self).streams@.len() && s != idx ==> final(self).streams@[s] == old(
                    self,
                ).streams@[s],
            final(self).streams@[idx as int].entries@ == old(self).streams@[idx as int].entries@
                .push((Metric { step, value })),
            final(self).streams@[idx as int].floor == step + 1,
            final(self).streams@[idx as int].name == old(self).streams@[idx as int].name,
    {
        let mut stream = self.streams.remove(idx);
        stream.entries.push(Metric { step, value });
        stream.floor = step + 1;
        self.streams.insert(idx, stream);
        proof {
            assert(self.streams@ =~= old(self).streams@.update(
                idx as int,
                self.streams@[idx as int],
            ));
        }
    }

    /// Record `value` at the stream's own counter and advance the counter:
    /// the train/validation step discipline.
    pub fn record_next(&mut self, idx: usize, value: u64) -> (step: u64)
        requires
            old(self).wf(),
            idx < old(self).streams@.len(),
            old(self).streams@[idx as int].floor < u64::MAX,
        ensures
            final(self).wf(),
            step == old(self).streams@[idx as int].floor,
            final(self).streams@.len() == old(self).streams@.len(),
            forall|s: int|
                0 <= s < old(self).streams@.len() && s != idx ==> final(self).streams@[s] == old(
                    self,
                ).streams@[s],
            final(self).streams@[idx as int].entries@ == old(self).streams@[idx as int].entries@
                .push((Metric { step, value })),
            final(self).streams@[idx as int].floor == step + 1,
            final(self).streams@[idx as int].name == old(self).streams@[idx as int].name,
    {
        let step = self.streams[idx].floor;
        self.record(idx, value, step);
        step
    }
}

} // verus!
