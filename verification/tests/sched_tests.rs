use enhancer::sched::StepLR;

fn schedule() -> Vec<(u64, u64)> {
    // 0.001, 0.0001 and 0.00001 in nano-units, with the boundaries of the
    // trainer's schedule.
    vec![(1_000_000, 300), (100_000, 400), (10_000, u64::MAX)]
}

#[test]
fn warmup_step_ten_halves_the_first_rate() {
    let bounds = schedule();
    let mut lr = StepLR::new(&bounds, 20, 1);
    let mut rate = 0;
    for _ in 0..10 {
        rate = lr.step();
    }
    // 0.001 * (10 / 20) = 0.0005
    assert_eq!(rate, 500_000);
    assert_eq!(lr.to_record(), 10);
}

#[test]
fn step_350_resolves_second_band() {
    let bounds = schedule();
    let lr = StepLR::new(&bounds, 20, 1);
    let mut lr = lr.load_record(349);
    let rate = lr.step();
    assert_eq!(rate, 100_000);
}

#[test]
fn step_500_resolves_final_band() {
    let bounds = schedule();
    let lr = StepLR::new(&bounds, 20, 1);
    let mut lr = lr.load_record(499);
    let rate = lr.step();
    assert_eq!(rate, 10_000);
}

#[test]
fn accumulation_divides_the_rate() {
    let bounds = schedule();
    let lr = StepLR::new(&bounds, 20, 4);
    let mut lr = lr.load_record(349);
    let rate = lr.step();
    assert_eq!(rate, 25_000);
}

#[test]
fn no_band_past_every_boundary_gives_zero() {
    let bounds = vec![(1_000_000, 300)];
    let lr = StepLR::new(&bounds, 0, 1);
    let mut lr = lr.load_record(300);
    let rate = lr.step();
    assert_eq!(rate, 0);
}

#[test]
fn resolved_rate_reports_pre_division_value() {
    let bounds = schedule();
    let lr = StepLR::new(&bounds, 20, 4);
    let mut lr = lr.load_record(349);
    let divided = lr.step();
    let logged = lr.resolved_rate();
    assert_eq!(divided, 25_000);
    assert_eq!(logged, 100_000);
}

#[test]
fn record_survives_resume() {
    let bounds = schedule();
    let mut lr = StepLR::new(&bounds, 20, 1);
    for _ in 0..7 {
        lr.step();
    }
    let saved = lr.to_record();
    let resumed = StepLR::new(&bounds, 20, 1).load_record(saved);
    assert_eq!(resumed.to_record(), 7);
}
