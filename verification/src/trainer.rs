//! The run configuration and the epoch/batch arithmetic of the training
//! orchestrator.
//!
//! One epoch visits the dataset in the seeded shuffle order and cuts it
//! into consecutive batches. The trailing partial batch is kept, so every
//! sample of the epoch is trained on; epoch-average metrics therefore
//! include one possibly smaller final batch.

use vstd::arithmetic::div_mod::lemma_fundamental_div_mod;
use vstd::prelude::*;

verus! {

/// The fixed hyperparameters of a training run.
pub struct AlphaZeroTrainerConfig {
    pub num_epochs: usize,
    pub batch_size: usize,
    pub seed: u64,
}

impl AlphaZeroTrainerConfig {
    /// The defaults of the trainer entry point.
    pub fn new() -> (c: Self)
        ensures
            c.num_epochs == 255,
            c.batch_size == 64,
            c.seed == 42,
    {
        AlphaZeroTrainerConfig { num_epochs: 255, batch_size: 64, seed: 42 }
    }
}

/// How many batches one epoch holds: full batches plus the kept partial one.
pub open spec fn spec_num_batches(len: int, bs: int) -> int
    recommends
        bs >= 1,
{
    len / bs + if len % bs == 0 {
        0int
    } else {
        1int
    }
}

pub fn num_batches(len: usize, bs: usize) -> (n: usize)
    requires
        bs >= 1,
    ensures
        n == spec_num_batches(len as int, bs as int),
{
    let full = len / bs;
    if len % bs == 0 {
        full
    } else {
        proof {
            lemma_fundamental_div_mod(len as int, bs as int);
            assert(full < len) by (nonlinear_arith)
                requires
                    len as int == (bs as int) * (full as int) + (len as int) % (bs as int),
                    (len as int) % (bs as int) >= 1,
                    bs >= 1,
                    full == (len as int) / (bs as int),
                    full >= 0,
            ;
        }
        full + 1
    }
}

/// The half-open sample range `[b * bs, min((b + 1) * bs, len))` of batch
/// `b`: consecutive, in order, never empty, never past the dataset.
pub fn batch_bounds(len: usize, bs: usize, b: usize) -> (se: (usize, usize))
    requires
        bs >= 1,
        b < spec_num_batches(len as int, bs as int),
    ensures
        se.0 == b as int * bs as int,
        se.1 == if (b as int + 1) * (bs as int) <= len as int {
            (b as int + 1) * (bs as int)
        } else {
            len as int
        },
        se.0 < se.1 <= len,
        se.1 - se.0 <= bs,
{
    proof {
        let q = (len as int) / (bs as int);
        let r = (len as int) % (bs as int);
        lemma_fundamental_div_mod(len as int, bs as int);
        if r == 0 {
            assert((b as int) * (bs as int) < len as int && (b as int) * (bs as int) + (bs as int)
                == (b as int + 1) * (bs as int)) by (nonlinear_arith)
                requires
                    len as int == (bs as int) * q,
                    bs >= 1,
                    0 <= b as int <= q - 1,
            ;
        } else {
            assert((b as int) * (bs as int) < len as int && (b as int) * (bs as int) + (bs as int)
                == (b as int + 1) * (bs as int)) by (nonlinear_arith)
                requires
                    len as int == (bs as int) * q + r,
                    1 <= r,
                    bs >= 1,
                    0 <= b as int <= q,
            ;
        }
    }
    let start = b * bs;
    let end = if len - start > bs {
        start + bs
    } else {
        len
    };
    (start, end)
}

/// What the orchestrator asks its caller to do next. The caller performs
/// the outside work (decode, backend step, persistence) and comes back for
/// the next action.
#[derive(Clone, Copy, Debug, PartialEq, Eq, Structural)]
pub enum TrainerAction {
    /// Run one optimizer step on batch `batch` of epoch `epoch`.
    TrainBatch { epoch: usize, batch: usize },
    /// Run the validation pass for epoch `epoch`.
    Validate { epoch: usize },
    /// Write the periodic checkpoint after epoch `epoch`; a failure here is
    /// logged and retried at the next cadence, never fatal.
    Checkpoint { epoch: usize },
    /// Persist the final trained artifact; a failure here is fatal.
    SaveFinal,
    /// The run is complete.
    Done,
}

/// Where the orchestrator stands: training the current epoch's batches
/// (the validation pass is emitted when they are exhausted), about to
/// checkpoint, about to save the final artifact, or finished.
#[derive(Clone, Copy, Debug, PartialEq, Eq, Structural)]
pub enum TrainerPhase {
    Training,
    Checkpointing,
    Saving,
    Finished,
}

/// The epoch loop as a state machine: training batches in order, then the
/// validation pass, then the checkpoint, epoch after epoch; after the last
/// epoch the final artifact is saved once and the run is done. The only
/// graceful stop boundary is between epochs, at the checkpoint.
pub struct TrainerLoop {
    pub num_epochs: usize,
    pub batches_per_epoch: usize,
    pub epoch: usize,
    pub batch: usize,
    pub phase: TrainerPhase,
}

/// The action the orchestrator emits in state `s`.
pub open spec fn spec_action(s: TrainerLoop) -> TrainerAction {
    match s.phase {
        TrainerPhase::Training => {
            if s.batch < s.batches_per_epoch {
                TrainerAction::TrainBatch { epoch: s.epoch, batch: s.batch }
            } else {
                TrainerAction::Validate { epoch: s.epoch }
            }
        },
        TrainerPhase::Checkpointing => TrainerAction::Checkpoint { epoch: s.epoch },
        TrainerPhase::Saving => TrainerAction::SaveFinal,
        TrainerPhase::Finished => TrainerAction::Done,
    }
}

/// The state the orchestrator moves to after emitting its action.
pub open spec fn spec_advance(s: TrainerLoop) -> TrainerLoop {
    match s.phase {
        TrainerPhase::Training => {
            if s.batch < s.batches_per_epoch {
                TrainerLoop { batch: (s.batch + 1) as usize, ..s }
            } else {
                TrainerLoop { phase: TrainerPhase::Checkpointing, ..s }
            }
        },
        TrainerPhase::Checkpointing => {
            if s.epoch + 1 < s.num_epochs {
                TrainerLoop { epoch: (s.epoch + 1) as usize, batch: 0, phase: TrainerPhase::Training, ..s }
            } else {
                TrainerLoop { epoch: (s.epoch + 1) as usize, batch: 0, phase: TrainerPhase::Saving, ..s }
            }
        },
        TrainerPhase::Saving => TrainerLoop { phase: TrainerPhase::Finished, ..s },
        TrainerPhase::Finished => s,
    }
}

impl TrainerLoop {
    pub open spec fn wf(&self) -> bool {
        &&& self.batch <= self.batches_per_epoch
        &&& self.epoch <= self.num_epochs
        &&& (self.phase == TrainerPhase::Training || self.phase == TrainerPhase::Checkpointing)
            ==> self.epoch < self.num_epochs
    }

    /// Start a run of `num_epochs` epochs of `batches_per_epoch` batches; a
    /// run of zero epochs goes straight to saving the (untrained) artifact.
    pub fn new(num_epochs: usize, batches_per_epoch: usize) -> (s: Self)
        ensures
            s.wf(),
            s.num_epochs == num_epochs,
            s.batches_per_epoch == batches_per_epoch,
            s.epoch == 0,
            s.batch == 0,
            s.phase == if num_epochs == 0 {
                TrainerPhase::Saving
            } else {
                TrainerPhase::Training
            },
    {
        let phase = if num_epochs == 0 {
            TrainerPhase::Saving
        } else {
            TrainerPhase::Training
        };
        TrainerLoop { num_epochs, batches_per_epoch, epoch: 0, batch: 0, phase }
    }

    /// Emit the next action and advance. Once the run is complete this
    /// yields `Done` forever.
    pub fn next(&mut self) -> (a: TrainerAction)
        requires
            old(self).wf(),
        ensures
            final(self).wf(),
            a == spec_action(*old(self)),
            *final(self) == spec_advance(*old(self)),
    {
        match self.phase {
            TrainerPhase::Training => {
                if self.batch < self.batches_per_epoch {
                    let a = TrainerAction::TrainBatch { epoch: self.epoch, batch: self.batch };
                    self.batch = self.batch + 1;
                    a
                } else {
                    self.phase = TrainerPhase::Checkpointing;
                    TrainerAction::Validate { epoch: self.epoch }
                }
            },
            TrainerPhase::Checkpointing => {
                let a = TrainerAction::Checkpoint { epoch: self.epoch };
                self.epoch = self.epoch + 1;
                self.batch = 0;
                self.phase = if self.epoch < self.num_epochs {
                    TrainerPhase::Training
                } else {
                    TrainerPhase::Saving
                };
                a
            },
            TrainerPhase::Saving => {
                self.phase = TrainerPhase::Finished;
                TrainerAction::SaveFinal
            },
            TrainerPhase::Finished => TrainerAction::Done,
        }
    }
}

/// The samples of batch `b` of an epoch order.
pub fn batch_indices(order: &Vec<usize>, bs: usize, b: usize) -> (r: Vec<usize>)
    requires
        bs >= 1,
        b < spec_num_batches(order@.len() as int, bs as int),
    ensures
        r@ == order@.subrange(
            b as int * bs as int,
            if (b as int + 1) * (bs as int) <= order@.len() {
                (b as int + 1) * (bs as int)
            } else {
                order@.len() as int
            },
        ),
        r@.len() >= 1,
{
    let (start, end) = batch_bounds(order.len(), bs, b);
    let mut r: Vec<usize> = Vec::new();
    let mut i: usize = start;
    while i < end
        invariant
            start <= i <= end,
            end <= order@.len(),
            r@ == order@.subrange(start as int, i as int),
        decreases end - i,
    {
        r.push(order[i]);
        proof {
            assert(r@ =~= order@.subrange(start as int, i as int + 1));
        }
        i = i + 1;
    }
    r
}

} // verus!
