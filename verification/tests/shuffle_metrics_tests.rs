use enhancer::metrics::MetricsSink;
use enhancer::shuffle::epoch_order;

#[test]
fn same_seed_gives_identical_epoch_orders() {
    let a = epoch_order(42, 3, 1000);
    let b = epoch_order(42, 3, 1000);
    assert_eq!(a, b);
}

#[test]
fn different_epochs_reshuffle() {
    let a = epoch_order(42, 0, 1000);
    let b = epoch_order(42, 1, 1000);
    assert_ne!(a, b);
}

#[test]
fn epoch_order_is_a_permutation() {
    let mut a = epoch_order(7, 0, 257);
    a.sort();
    let id: Vec<usize> = (0..257).collect();
    assert_eq!(a, id);
}

#[test]
fn epoch_order_trivial_lengths() {
    assert_eq!(epoch_order(1, 0, 0), Vec::<usize>::new());
    assert_eq!(epoch_order(1, 0, 1), vec![0]);
}

#[test]
fn stream_counters_are_independent_and_increasing() {
    let mut sink = MetricsSink::new();
    let train = sink.add_stream(String::from("train"));
    let valid = sink.add_stream(String::from("test"));
    assert_eq!(sink.record_next(train, 10), 0);
    assert_eq!(sink.record_next(train, 11), 1);
    assert_eq!(sink.record_next(valid, 20), 0);
    assert_eq!(sink.record_next(train, 12), 2);
    assert_eq!(sink.streams[train].entries.len(), 3);
    assert_eq!(sink.streams[valid].entries.len(), 1);
    assert_eq!(sink.streams[train].entries[2].step, 2);
    assert_eq!(sink.streams[train].entries[2].value, 12);
}

#[test]
fn explicit_steps_record_at_the_given_step() {
    let mut sink = MetricsSink::new();
    let lr = sink.add_stream(String::from("general"));
    sink.record(lr, 500_000, 10);
    sink.record(lr, 100_000, 350);
    assert_eq!(sink.streams[lr].entries[0].step, 10);
    assert_eq!(sink.streams[lr].entries[1].step, 350);
    assert_eq!(sink.streams[lr].floor, 351);
}
