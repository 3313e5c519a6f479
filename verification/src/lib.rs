//! Verified core of a photo-restoration training pipeline.
//!
//! The library covers the logic of the pipeline: degrading a raw photograph
//! into a (truth, degraded) training pair, indexed dataset access, encoding
//! images into perceptual-color planes, stacking samples into batches, the
//! shape discipline of the convolutional model, the piecewise learning-rate
//! schedule, deterministic epoch shuffling, and the monotone metrics sink.
//! Image decoding, file traversal and the tensor backend remain outside; the
//! library reaches them only through narrow trusted declarations.

pub mod augment;
pub mod batch;
pub mod dataset;
pub mod encode;
pub mod img;
pub mod metrics;
pub mod model;
pub mod sched;
pub mod shuffle;
pub mod trainer;
