use system_monitor::units::{
    mean, normalize_process_cpu, ratio_percent, throughput, to_mebi_hundredths,
    to_megabit_hundredths, FULL_SCALE, MEBI,
};

#[test]
fn mean_of_three_cores() {
    assert_eq!(mean(&vec![1000, 2000, 3000]), 2000);
}

#[test]
fn mean_of_no_cores_is_zero() {
    assert_eq!(mean(&Vec::new()), 0);
}

#[test]
fn mean_rounds_down() {
    assert_eq!(mean(&vec![1, 2]), 1);
    assert_eq!(mean(&vec![10_000, 10_000, 9_999]), 9_999);
}

#[test]
fn mean_of_largest_readings_does_not_overflow() {
    assert_eq!(mean(&vec![u32::MAX, u32::MAX, u32::MAX]), u32::MAX);
}

#[test]
fn ratio_percent_quarter() {
    assert_eq!(ratio_percent(50, 200), 2500);
}

#[test]
fn ratio_percent_of_nothing_is_zero() {
    assert_eq!(ratio_percent(0, 0), 0);
}

#[test]
fn ratio_percent_full() {
    assert_eq!(ratio_percent(u64::MAX, u64::MAX), FULL_SCALE);
    assert_eq!(FULL_SCALE, 10_000);
}

#[test]
fn ratio_percent_rounds_down() {
    assert_eq!(ratio_percent(1, 3), 3333);
    assert_eq!(ratio_percent(2, 3), 6666);
}

#[test]
fn process_cpu_is_divided_by_core_count() {
    assert_eq!(normalize_process_cpu(40_000, 8), 5_000);
    assert_eq!(normalize_process_cpu(9_000, 4), 2_250);
    assert_eq!(normalize_process_cpu(7, 2), 3);
}

#[test]
fn process_cpu_without_cores_is_zero() {
    assert_eq!(normalize_process_cpu(40_000, 0), 0);
}

#[test]
fn throughput_ten_megabits_per_second() {
    // 6_553_600 bytes in five seconds: 50 megabits, ten per second.
    assert_eq!(throughput(6_553_600, 5_000), 1_000);
}

#[test]
fn throughput_counts_bits_not_bytes() {
    // One mebibyte in one second is eight megabits per second, not one.
    assert_eq!(throughput(MEBI, 1_000), 800);
    assert_ne!(throughput(MEBI, 1_000), 100);
}

#[test]
fn throughput_without_elapsed_time_is_zero() {
    assert_eq!(throughput(6_553_600, 0), 0);
}

#[test]
fn throughput_of_the_largest_counter_fits() {
    assert_eq!(throughput(u64::MAX, 1), 14_073_748_835_532_799_999);
}

#[test]
fn throughput_rounds_down() {
    assert_eq!(throughput(1, 1_000), 0);
    assert_eq!(throughput(1_311, 1_000), 1);
}

#[test]
fn mebibytes_in_hundredths() {
    assert_eq!(to_mebi_hundredths(1_572_864), 150);
    assert_eq!(to_mebi_hundredths(0), 0);
    assert_eq!(to_mebi_hundredths(u64::MAX), 1_759_218_604_441_599);
}

#[test]
fn megabits_in_hundredths() {
    assert_eq!(to_megabit_hundredths(1_048_576), 800);
    assert_eq!(to_megabit_hundredths(u64::MAX), 14_073_748_835_532_799);
}
