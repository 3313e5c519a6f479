use enhancer::dataset::{normalize_to_224, ImageSet};
use enhancer::model::{ConvLayer, Model, TensorShape};
use enhancer::trainer::{
    batch_bounds, batch_indices, num_batches, AlphaZeroTrainerConfig, TrainerAction, TrainerLoop,
};

#[test]
fn forward_preserves_the_patch_shape() {
    let m = Model::new();
    let s = TensorShape { n: 2, c: 3, h: 224, w: 224 };
    assert_eq!(m.forward_shape(&s), Some(s));
}

#[test]
fn forward_rejects_wrong_channel_count() {
    let m = Model::new();
    let s = TensorShape { n: 2, c: 4, h: 224, w: 224 };
    assert_eq!(m.forward_shape(&s), None);
}

#[test]
fn standard_stack_has_the_documented_channel_progression() {
    let m = Model::new();
    let chain: Vec<(usize, usize)> =
        m.layers.iter().map(|l| (l.in_channels, l.out_channels)).collect();
    assert_eq!(chain, vec![(3, 64), (64, 64), (64, 32), (32, 3)]);
    assert!(m.layers.iter().all(|l| l.kernel == 3 && l.padding == 1));
}

#[test]
fn unpadded_convolution_shrinks_the_spatial_size() {
    let l = ConvLayer { in_channels: 3, out_channels: 64, kernel: 3, padding: 0 };
    let s = TensorShape { n: 1, c: 3, h: 10, w: 12 };
    assert_eq!(l.output_shape(&s), Some(TensorShape { n: 1, c: 64, h: 8, w: 10 }));
}

#[test]
fn trainer_defaults_match_the_run_configuration() {
    let c = AlphaZeroTrainerConfig::new();
    assert_eq!(c.num_epochs, 255);
    assert_eq!(c.batch_size, 64);
    assert_eq!(c.seed, 42);
}

#[test]
fn epoch_keeps_the_trailing_partial_batch() {
    assert_eq!(num_batches(4400, 64), 69);
    assert_eq!(num_batches(4416, 64), 69);
    assert_eq!(num_batches(0, 64), 0);
    assert_eq!(batch_bounds(4400, 64, 0), (0, 64));
    assert_eq!(batch_bounds(4400, 64, 68), (4352, 4400));
}

#[test]
fn batch_indices_cut_the_order_in_input_order() {
    let order: Vec<usize> = vec![5, 3, 8, 1, 0, 9, 2, 7, 6, 4];
    assert_eq!(batch_indices(&order, 4, 0), vec![5, 3, 8, 1]);
    assert_eq!(batch_indices(&order, 4, 1), vec![0, 9, 2, 7]);
    assert_eq!(batch_indices(&order, 4, 2), vec![6, 4]);
}

#[test]
fn orchestrator_walks_epochs_in_order_then_saves_once() {
    let mut m = TrainerLoop::new(2, 2);
    let mut actions = Vec::new();
    for _ in 0..11 {
        actions.push(m.next());
    }
    assert_eq!(
        actions,
        vec![
            TrainerAction::TrainBatch { epoch: 0, batch: 0 },
            TrainerAction::TrainBatch { epoch: 0, batch: 1 },
            TrainerAction::Validate { epoch: 0 },
            TrainerAction::Checkpoint { epoch: 0 },
            TrainerAction::TrainBatch { epoch: 1, batch: 0 },
            TrainerAction::TrainBatch { epoch: 1, batch: 1 },
            TrainerAction::Validate { epoch: 1 },
            TrainerAction::Checkpoint { epoch: 1 },
            TrainerAction::SaveFinal,
            TrainerAction::Done,
            TrainerAction::Done,
        ]
    );
}

#[test]
fn orchestrator_with_no_epochs_only_saves() {
    let mut m = TrainerLoop::new(0, 5);
    assert_eq!(m.next(), TrainerAction::SaveFinal);
    assert_eq!(m.next(), TrainerAction::Done);
}

#[test]
fn dataset_length_is_the_configured_contract() {
    let set = ImageSet::new(String::from("./data"), 4400);
    assert_eq!(set.len(), 4400);
    assert_eq!(set.count, 4400);
}

#[test]
fn normalization_resamples_to_the_canonical_resolution() {
    let img = image::DynamicImage::new_rgb8(640, 480);
    let buf = normalize_to_224(img);
    assert_eq!((buf.width, buf.height), (224, 224));
    assert_eq!(buf.pixels.len(), 3 * 224 * 224);
}
