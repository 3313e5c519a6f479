//! Piecewise learning-rate schedule with warmup ramp and gradient-accumulation
//! scaling.
//!
//! Learning rates are fixed-point values in nano-units: a stored rate of
//! `1_000_000` stands for the real rate 0.001. All schedule arithmetic is
//! exact integer arithmetic over that representation.

use vstd::arithmetic::div_mod::{lemma_div_is_ordered, lemma_div_nonincreasing};
use vstd::arithmetic::mul::{lemma_mul_inequality, lemma_mul_is_commutative};
use vstd::prelude::*;

verus! {

/// The rate the schedule resolves before warmup scaling: the rate paired with
/// the first boundary (in list order) strictly greater than `step`, or 0 when
/// no boundary exceeds `step`.
pub open spec fn select_rate(bounds: Seq<(u64, u64)>, step: u64) -> u64
    decreases bounds.len(),
{
    if bounds.len() == 0 {
        0
    } else if step < bounds[0].1 {
        bounds[0].0
    } else {
        select_rate(bounds.drop_first(), step)
    }
}

/// The resolved rate scaled linearly by `step / warmup` while `step` is still
/// inside the warmup ramp.
pub open spec fn warmup_scaled(rate: u64, step: u64, warmup: u64) -> int {
    if step < warmup {
        (rate as int * step as int) / (warmup as int)
    } else {
        rate as int
    }
}

/// The rate handed to the optimizer at `step`: the warmup-scaled resolved rate
/// divided by the gradient-accumulation factor.
pub open spec fn scheduled_rate(bounds: Seq<(u64, u64)>, warmup: u64, accum: u64, step: u64) -> int
    recommends
        accum >= 1,
{
    warmup_scaled(select_rate(bounds, step), step, warmup) / (accum as int)
}

/// Piecewise step schedule: ordered `(rate, boundary)` pairs, a warmup-step
/// count, a gradient-accumulation divisor, and the step counter, which is the
/// only state that must survive a checkpoint resume.
pub struct StepLR {
    pub bounds: Vec<(u64, u64)>,
    pub warmup_steps: u64,
    pub steps: u64,
    pub accum: u64,
}

impl StepLR {
    /// Boundaries ascend strictly and the accumulation divisor is positive.
    pub open spec fn wf(&self) -> bool {
        &&& self.accum >= 1
        &&& forall|i: int, j: int|
            0 <= i < j < self.bounds@.len() ==> self.bounds@[i].1 < self.bounds@[j].1
    }

    pub fn new(lr: &Vec<(u64, u64)>, warmup_steps: u64, accum: u64) -> (s: Self)
        requires
            accum >= 1,
            forall|i: int, j: int| 0 <= i < j < lr@.len() ==> lr@[i].1 < lr@[j].1,
        ensures
            s.wf(),
            s.bounds@ == lr@,
            s.warmup_steps == warmup_steps,
            s.accum == accum,
            s.steps == 0,
    {
        let mut bounds: Vec<(u64, u64)> = Vec::new();
        let mut i: usize = 0;
        while i < lr.len()
            invariant
                i <= lr@.len(),
                bounds@ == lr@.subrange(0, i as int),
            decreases lr@.len() - i,
        {
            bounds.push(lr[i]);
            i = i + 1;
        }
        proof {
            assert(bounds@ =~= lr@);
        }
        StepLR { bounds, warmup_steps, steps: 0, accum }
    }

    /// Advance the step counter and resolve the rate for the new step.
    pub fn step(&mut self) -> (rate: u64)
        requires
            old(self).wf(),
            old(self).steps < u64::MAX,
        ensures
            final(self).wf(),
            final(self).steps == old(self).steps + 1,
            final(self).bounds@ == old(self).bounds@,
            final(self).warmup_steps == old(self).warmup_steps,
            final(self).accum == old(self).accum,
            rate as int == scheduled_rate(
                old(self).bounds@,
                old(self).warmup_steps,
                old(self).accum,
                (old(self).steps + 1) as u64,
            ),
    {
        self.steps = self.steps + 1;
        let resolved = rate_at(&self.bounds, self.warmup_steps, self.steps);
        let divided: u128 = (resolved as u128) / (self.accum as u128);
        proof {
            lemma_div_nonincreasing(resolved as int, self.accum as int);
        }
        divided as u64
    }

    /// The rate the schedule resolves for the current step before the
    /// accumulation division: this is the value recorded to the metrics sink.
    pub fn resolved_rate(&self) -> (rate: u64)
        ensures
            rate as int == warmup_scaled(
                select_rate(self.bounds@, self.steps),
                self.steps,
                self.warmup_steps,
            ),
    {
        rate_at(&self.bounds, self.warmup_steps, self.steps)
    }

    /// The checkpointable state of the schedule: the step counter alone.
    pub fn to_record(&self) -> (r: u64)
        ensures
            r == self.steps,
    {
        self.steps
    }

    /// Restore a schedule from a checkpointed step counter.
    pub fn load_record(self, record: u64) -> (s: Self)
        ensures
            s.steps == record,
            s.bounds@ == self.bounds@,
            s.warmup_steps == self.warmup_steps,
            s.accum == self.accum,
    {
        let mut s = self;
        s.steps = record;
        s
    }
}

/// Resolve the warmup-scaled rate for `step` from the boundary list.
fn rate_at(bounds: &Vec<(u64, u64)>, warmup: u64, step: u64) -> (rate: u64)
    ensures
        rate as int == warmup_scaled(select_rate(bounds@, step), step, warmup),
{
    let mut idx: usize = 0;
    proof {
        assert(bounds@.skip(0) =~= bounds@);
    }
    while idx < bounds.len() && step >= bounds[idx].1
        invariant
            idx <= bounds@.len(),
            select_rate(bounds@, step) == select_rate(bounds@.skip(idx as int), step),
        decreases bounds@.len() - idx,
    {
        proof {
            assert(bounds@.skip(idx as int).drop_first() =~= bounds@.skip(idx as int + 1));
        }
        idx = idx + 1;
    }
    let current: u64 = if idx < bounds.len() {
        bounds[idx].0
    } else {
        0
    };
    proof {
        assert(current == select_rate(bounds@, step));
    }
    if step < warmup {
        proof {
            assert((current as int) * (step as int) < u128::MAX as int) by (nonlinear_arith)
                requires
                    0 <= current as int <= u64::MAX as int,
                    0 <= step as int <= u64::MAX as int,
            ;
        }
        let wide: u128 = (current as u128) * (step as u128) / (warmup as u128);
        proof {
            lemma_mul_is_commutative(current as int, step as int);
            lemma_mul_inequality(step as int, warmup as int, current as int);
            lemma_div_is_ordered(
                step as int * current as int,
                warmup as int * current as int,
                warmup as int,
            );
            vstd::arithmetic::div_mod::lemma_div_multiples_vanish(current as int, warmup as int);
        }
        wide as u64
    } else {
        current
    }
}

} // verus!
