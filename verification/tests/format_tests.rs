use tamer::duration::BenchDuration;
use tamer::measurement::{elements_per_second, u64_to_string};
use tamer::throughput::Throughput;

#[test]
fn u64_rendering() {
    assert_eq!(u64_to_string(0), "0");
    assert_eq!(u64_to_string(7), "7");
    assert_eq!(u64_to_string(10), "10");
    assert_eq!(u64_to_string(1234567890), "1234567890");
    assert_eq!(u64_to_string(u64::MAX), "18446744073709551615");
}

#[test]
fn throughput_value_and_units() {
    let t = Throughput::Elements(42);
    assert_eq!(t.value(), 42);
    assert_eq!(t.units(), "elements");
}

#[test]
fn throughput_display() {
    assert_eq!(Throughput::Elements(5).display_string(), "5 elements");
}

#[test]
fn per_second_plain_elements() {
    let t = Throughput::Elements(500);
    let s = t.per_second_string(BenchDuration::from_secs(1));
    assert_eq!(s, "500.00 elem/s");
}

#[test]
fn per_second_mega_elements() {
    let t = Throughput::Elements(1_500_000);
    let s = t.per_second_string(BenchDuration::from_secs(1));
    assert_eq!(s, "1.50 Melem/s");
}

#[test]
fn per_second_kilo_elements() {
    let t = Throughput::Elements(2_000);
    let s = t.per_second_string(BenchDuration::from_secs(2));
    assert_eq!(s, "1.00 Kelem/s");
}

#[test]
fn per_second_giga_elements() {
    let s = elements_per_second(3_000_000_000, 1_000_000_000);
    assert_eq!(s, "3.00 Gelem/s");
}

#[test]
fn per_second_zero_duration_is_infinite() {
    let t = Throughput::Elements(500);
    let s = t.per_second_string(BenchDuration::from_nanos(0));
    assert_eq!(s, "inf Gelem/s");
}

#[test]
fn per_second_fractional() {
    // 1 element over 3 seconds: 0.33.. elem/s, rounded to two places.
    let s = elements_per_second(1, 3_000_000_000);
    assert_eq!(s, "0.33 elem/s");
}

#[test]
fn per_second_largest_value() {
    let s = elements_per_second(u64::MAX, 1);
    assert_eq!(s, "18446744073709551615.00 Gelem/s");
}

#[test]
fn duration_conversions() {
    assert_eq!(BenchDuration::from_millis(1500).as_millis(), 1500);
    assert_eq!(BenchDuration::from_secs(2).nanos, 2_000_000_000);
    assert_eq!(BenchDuration::from_nanos(999_999).as_millis(), 0);
}
