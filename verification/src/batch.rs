//! Stacking encoded samples into batch tensors.
//!
//! A batch is one flat buffer per side (truth, transformed) holding the
//! encoded planes of every sample back to back: sample `i` occupies
//! `[i * 150528, (i + 1) * 150528)`, so the leading dimension equals the
//! sample count and the sample order is exactly the input order. The
//! batcher never reorders or drops samples; shuffling belongs to the
//! component feeding it, and moving the stacked buffers onto a compute
//! device belongs to the tensor backend behind it.

use crate::encode::{encode_image, encoded_seq_224};
use crate::img::RgbBuf;
use vstd::arithmetic::div_mod::lemma_fundamental_div_mod_converse;
use vstd::prelude::*;

verus! {

/// A stored sample side normalized to the canonical resolution.
pub open spec fn is_patch(img: RgbBuf) -> bool {
    &&& img.wf()
    &&& img.width == 224
    &&& img.height == 224
}

/// One stacked batch: the encoded truth planes and the encoded transformed
/// planes, sample-major.
pub struct ImageBatch {
    pub count: usize,
    pub truth: Vec<i16>,
    pub transformed: Vec<i16>,
}

impl ImageBatch {
    pub open spec fn wf(&self) -> bool {
        &&& self.truth@.len() == (self.count as int) * 150528
        &&& self.transformed@.len() == (self.count as int) * 150528
    }
}

/// Builds batches from (truth, transformed) sample pairs.
pub struct ImageBatcher {
}

impl ImageBatcher {
    pub fn new() -> (s: Self) {
        ImageBatcher {  }
    }

    /// Encode every sample and stack the planes in input order: sample `i`
    /// of the input is slice `i` of the output, and the leading dimension of
    /// the batch is exactly the number of samples handed in.
    pub fn batch(&self, items: &Vec<(RgbBuf, RgbBuf)>) -> (b: ImageBatch)
        requires
            forall|i: int|
                0 <= i < items@.len() ==> is_patch((#[trigger] items@[i]).0) && is_patch(
                    items@[i].1,
                ),
        ensures
            b.wf(),
            b.count == items@.len(),
            forall|i: int|
                0 <= i < items@.len() ==> b.truth@.subrange(i * 150528, (i + 1) * 150528)
                    == encoded_seq_224((#[trigger] items@[i]).0),
            forall|i: int|
                0 <= i < items@.len() ==> b.transformed@.subrange(i * 150528, (i + 1) * 150528)
                    == encoded_seq_224((#[trigger] items@[i]).1),
    {
        let mut truth: Vec<i16> = Vec::new();
        let mut transformed: Vec<i16> = Vec::new();
        let mut i: usize = 0;
        while i < items.len()
            invariant
                i <= items@.len(),
                forall|j: int|
                    0 <= j < items@.len() ==> is_patch((#[trigger] items@[j]).0) && is_patch(
                        items@[j].1,
                    ),
                truth@.len() == i * 150528,
                transformed@.len() == i * 150528,
                forall|t: int|
                    0 <= t < truth@.len() ==> (#[trigger] truth@[t]) == encoded_seq_224(
                        items@[t / 150528].0,
                    )[t % 150528],
                forall|t: int|
                    0 <= t < transformed@.len() ==> (#[trigger] transformed@[t])
                        == encoded_seq_224(items@[t / 150528].1)[t % 150528],
            decreases items@.len() - i,
        {
            let ghost truth0 = truth@;
            let ghost transformed0 = transformed@;
            let mut et = encode_image(&items[i].0);
            let mut ed = encode_image(&items[i].1);
            truth.append(&mut et.data);
            transformed.append(&mut ed.data);
            proof {
                assert forall|t: int| 0 <= t < truth@.len() implies (#[trigger] truth@[t])
                    == encoded_seq_224(items@[t / 150528].0)[t % 150528] by {
                    if t >= i * 150528 {
                        lemma_fundamental_div_mod_converse(
                            t,
                            150528,
                            i as int,
                            t - i as int * 150528,
                        );
                    }
                }
                assert forall|t: int| 0 <= t < transformed@.len() implies (#[trigger] transformed@[t])
                    == encoded_seq_224(items@[t / 150528].1)[t % 150528] by {
                    if t >= i * 150528 {
                        lemma_fundamental_div_mod_converse(
                            t,
                            150528,
                            i as int,
                            t - i as int * 150528,
                        );
                    }
                }
            }
            i = i + 1;
        }
        let b = ImageBatch { count: i, truth, transformed };
        proof {
            assert forall|k: int| 0 <= k < items@.len() implies b.truth@.subrange(
                k * 150528,
                (k + 1) * 150528,
            ) == encoded_seq_224((#[trigger] items@[k]).0) by {
                assert forall|t: int| 0 <= t < 150528 implies b.truth@.subrange(
                    k * 150528,
                    (k + 1) * 150528,
                )[t] == encoded_seq_224(items@[k].0)[t] by {
                    lemma_fundamental_div_mod_converse(k * 150528 + t, 150528, k, t);
                }
                assert(b.truth@.subrange(k * 150528, (k + 1) * 150528) =~= encoded_seq_224(
                    items@[k].0,
                ));
            }
            assert forall|k: int| 0 <= k < items@.len() implies b.transformed@.subrange(
                k * 150528,
                (k + 1) * 150528,
            ) == encoded_seq_224((#[trigger] items@[k]).1) by {
                assert forall|t: int| 0 <= t < 150528 implies b.transformed@.subrange(
                    k * 150528,
                    (k + 1) * 150528,
                )[t] == encoded_seq_224(items@[k].1)[t] by {
                    lemma_fundamental_div_mod_converse(k * 150528 + t, 150528, k, t);
                }
                assert(b.transformed@.subrange(k * 150528, (k + 1) * 150528) =~= encoded_seq_224(
                    items@[k].1,
                ));
            }
        }
        b
    }
}

} // verus!
