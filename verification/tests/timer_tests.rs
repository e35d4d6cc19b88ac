use aac_ld_encoder::timer::PerformanceTimer;
use aac_ld_encoder::version_info;

#[test]
fn version_string_names_the_library() {
    assert_eq!(version_info(), "AAC-LD Encoder v1.0.0");
}

#[test]
fn each_stop_records_one_measurement() {
    let mut timer = PerformanceTimer::new();
    assert_eq!(timer.count(), 0);
    for expected in 1..=5usize {
        timer.start();
        timer.stop();
        assert_eq!(timer.count(), expected);
    }
}

#[test]
fn reset_discards_every_measurement() {
    let mut timer = PerformanceTimer::new();
    timer.start();
    timer.stop();
    timer.stop();
    assert_eq!(timer.count(), 2);
    timer.reset();
    assert_eq!(timer.count(), 0);
    assert!(timer.min_micros().is_none());
    assert!(timer.max_micros().is_none());
    assert_eq!(timer.total_micros(), 0);
}

#[test]
fn summaries_agree_with_the_recorded_values() {
    let mut timer = PerformanceTimer::new();
    for _ in 0..4 {
        timer.start();
        timer.stop();
    }
    let values: Vec<u64> = (0..timer.count()).map(|i| timer.measurement(i)).collect();
    let min = timer.min_micros().unwrap();
    let max = timer.max_micros().unwrap();
    assert_eq!(min, *values.iter().min().unwrap());
    assert_eq!(max, *values.iter().max().unwrap());
    assert!(min <= max);
    assert_eq!(timer.total_micros(), values.iter().sum::<u64>());
}
