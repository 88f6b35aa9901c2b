use whisper_rust::cpu::MAX_SAMPLES;
use whisper_rust::CpuMonitor;

#[test]
fn test_cpu_monitor() {
    let mut monitor = CpuMonitor::new();

    // Test initial state
    assert_eq!(monitor.average_cpu_usage(), 0);
    assert!(!monitor.should_downgrade(80));

    // Add some CPU usage samples
    monitor.record_cpu_usage(50);
    monitor.record_cpu_usage(60);
    monitor.record_cpu_usage(70);

    assert_eq!(monitor.average_cpu_usage(), 60);
    assert!(!monitor.should_downgrade(80));

    // Add high CPU usage
    monitor.record_cpu_usage(90);
    monitor.record_cpu_usage(95);

    assert!(monitor.average_cpu_usage() > 70);
    // The mean of the five samples is 73: above 70, not above 80.
    assert_eq!(monitor.average_cpu_usage(), 73);
    assert!(monitor.should_downgrade(70));
    assert!(!monitor.should_downgrade(80));
}

#[test]
fn empty_monitor() {
    let monitor = CpuMonitor::new();
    assert_eq!(monitor.len(), 0);
    assert_eq!(monitor.sample_count(), 0);
    assert_eq!(monitor.sample_total(), 0);
    assert_eq!(monitor.average_cpu_usage(), 0);
    assert!(!monitor.should_downgrade(0));
}

#[test]
fn eleventh_sample_drops_the_oldest() {
    let mut monitor = CpuMonitor::new();
    for k in 1u32..=10 {
        monitor.record_cpu_usage(k * 10);
    }
    assert_eq!(monitor.len(), MAX_SAMPLES);
    // 10 + 20 + ... + 100 = 550
    assert_eq!(monitor.average_cpu_usage(), 55);

    monitor.record_cpu_usage(110);
    assert_eq!(monitor.len(), 10);
    assert_eq!(monitor.sample_count(), 11);
    // 20 + 30 + ... + 110 = 650: the 10 is gone.
    assert_eq!(monitor.average_cpu_usage(), 65);

    monitor.record_cpu_usage(120);
    // 30 + ... + 120 = 750: the 20 is gone.
    assert_eq!(monitor.average_cpu_usage(), 75);
    assert_eq!(monitor.sample_count(), 12);
}

#[test]
fn ring_goes_round_more_than_once() {
    let mut monitor = CpuMonitor::new();
    for _ in 0..25 {
        monitor.record_cpu_usage(100);
    }
    for _ in 0..10 {
        monitor.record_cpu_usage(7);
    }
    assert_eq!(monitor.len(), 10);
    assert_eq!(monitor.sample_count(), 35);
    assert_eq!(monitor.average_cpu_usage(), 7);
}

#[test]
fn average_rounds_down_and_downgrade_is_exact() {
    let mut monitor = CpuMonitor::new();
    monitor.record_cpu_usage(80);
    monitor.record_cpu_usage(81);
    // The mean is 80.5.
    assert_eq!(monitor.sample_total(), 161);
    assert_eq!(monitor.average_cpu_usage(), 80);
    assert!(monitor.should_downgrade(80));
    assert!(!monitor.should_downgrade(81));
}

#[test]
fn mean_equal_to_threshold_is_not_above_it() {
    let mut monitor = CpuMonitor::new();
    monitor.record_cpu_usage(80);
    monitor.record_cpu_usage(80);
    assert!(!monitor.should_downgrade(80));
    assert!(monitor.should_downgrade(79));
}

#[test]
fn largest_samples_do_not_overflow() {
    let mut monitor = CpuMonitor::new();
    for _ in 0..12 {
        monitor.record_cpu_usage(u32::MAX);
    }
    assert_eq!(monitor.average_cpu_usage(), u32::MAX);
    assert!(monitor.should_downgrade(u32::MAX - 1));
    assert!(!monitor.should_downgrade(u32::MAX));
}
