use netbench::rate::bytes_to_human;
use netbench::rate::rate;
use netbench::text::decimal_string;
use netbench::text::push_decimal;
use netbench::text::push_spaces;
use netbench::timing::Elapsed;

#[test]
fn bytes_below_one_unit_stay_unscaled() {
    assert_eq!(bytes_to_human(0), (0, ""));
    assert_eq!(bytes_to_human(1), (1, ""));
    assert_eq!(bytes_to_human(1023), (1023, ""));
}

#[test]
fn bytes_scale_to_each_unit() {
    assert_eq!(bytes_to_human(1024), (1, "ki"));
    assert_eq!(bytes_to_human(2048), (2, "ki"));
    assert_eq!(bytes_to_human(1_048_575), (1023, "ki"));
    assert_eq!(bytes_to_human(1_048_576), (1, "Mi"));
    assert_eq!(bytes_to_human(1_073_741_824), (1, "Gi"));
    assert_eq!(bytes_to_human(1_099_511_627_776), (1, "Ti"));
    assert_eq!(bytes_to_human(1_125_899_906_842_624), (1, "Pi"));
}

#[test]
fn bytes_scaling_drops_the_remainder() {
    assert_eq!(bytes_to_human(1536), (1, "ki"));
    assert_eq!(bytes_to_human(2047), (1, "ki"));
    assert_eq!(bytes_to_human(5 * 1_048_576 + 1_048_575), (5, "Mi"));
}

#[test]
fn bytes_beyond_the_largest_unit_keep_its_suffix() {
    // 1024 Pi: no larger unit is left, so the value stays at 1024.
    assert_eq!(bytes_to_human(1_152_921_504_606_846_976), (1024, "Pi"));
    assert_eq!(bytes_to_human(u64::MAX as u128), (16383, "Pi"));
    assert_eq!(
        bytes_to_human(u128::MAX),
        (u128::MAX / 1_125_899_906_842_624, "Pi")
    );
}

#[test]
fn scaled_value_times_unit_brackets_the_count() {
    let units: [u128; 6] = [
        1,
        1024,
        1_048_576,
        1_073_741_824,
        1_099_511_627_776,
        1_125_899_906_842_624,
    ];
    let suffixes = ["", "ki", "Mi", "Gi", "Ti", "Pi"];
    let samples: [u128; 9] = [
        0,
        999,
        1025,
        77_777,
        3_333_333,
        9_876_543_210,
        123_456_789_012_345,
        9_999_999_999_999_999_999,
        340_282_366_920_938_463_463,
    ];
    for bytes in samples {
        let (scaled, suffix) = bytes_to_human(bytes);
        let rank = suffixes.iter().position(|s| *s == suffix).unwrap();
        assert!(scaled * units[rank] <= bytes);
        assert!(bytes < (scaled + 1) * units[rank]);
        if rank < 5 {
            assert!(scaled < 1024);
        }
    }
}

#[test]
fn rate_over_whole_seconds() {
    assert_eq!(rate(1000, Elapsed::new(1, 0)), 1000);
    assert_eq!(rate(1000, Elapsed::new(2, 0)), 500);
    assert_eq!(rate(0, Elapsed::new(5, 0)), 0);
}

#[test]
fn rate_rounds_to_the_nearest_integer() {
    assert_eq!(rate(1, Elapsed::new(3, 0)), 0);
    assert_eq!(rate(2, Elapsed::new(3, 0)), 1);
    assert_eq!(rate(3, Elapsed::new(2, 0)), 2);
    assert_eq!(rate(5, Elapsed::new(2, 0)), 3);
    assert_eq!(rate(10, Elapsed::new(4, 0)), 3);
    assert_eq!(rate(7, Elapsed::new(1, 500_000_000)), 5);
}

#[test]
fn rate_over_a_fraction_of_a_second() {
    assert_eq!(rate(10, Elapsed::new(0, 500_000_000)), 20);
    assert_eq!(rate(1, Elapsed::new(0, 1)), 1_000_000_000);
    assert_eq!(rate(3, Elapsed::new(0, 1_000)), 3_000_000);
}

#[test]
fn rate_of_the_largest_count_does_not_overflow() {
    let largest = usize::MAX;
    assert_eq!(
        rate(largest, Elapsed::from_nanos(1)),
        largest as u128 * 1_000_000_000
    );
    assert_eq!(rate(largest, Elapsed::from_nanos(u128::MAX)), 0);
}

#[test]
fn elapsed_counts_nanoseconds() {
    assert_eq!(Elapsed::new(0, 0).nanos, 0);
    assert_eq!(Elapsed::new(1, 500_000_000).nanos, 1_500_000_000);
    assert_eq!(
        Elapsed::new(u64::MAX, u32::MAX).nanos,
        u64::MAX as u128 * 1_000_000_000 + u32::MAX as u128
    );
    assert_eq!(Elapsed::from_nanos(42), Elapsed { nanos: 42 });
}

#[test]
fn elapsed_whole_seconds_drop_the_fraction() {
    assert_eq!(Elapsed::new(0, 999_999_999).whole_secs(), 0);
    assert_eq!(Elapsed::new(1, 0).whole_secs(), 1);
    assert_eq!(Elapsed::new(7, 999_999_999).whole_secs(), 7);
}

#[test]
fn elapsed_exceeds_is_strict() {
    let limit = Elapsed::new(10, 0);
    assert!(!Elapsed::new(9, 999_999_999).exceeds(limit));
    assert!(!Elapsed::new(10, 0).exceeds(limit));
    assert!(Elapsed::new(10, 1).exceeds(limit));
    assert!(!Elapsed::new(0, 0).exceeds(Elapsed::new(0, 0)));
}

#[test]
fn decimal_numerals() {
    assert_eq!(decimal_string(0), "0");
    assert_eq!(decimal_string(7), "7");
    assert_eq!(decimal_string(10), "10");
    assert_eq!(decimal_string(1234567890), "1234567890");
    assert_eq!(decimal_string(u128::MAX), u128::MAX.to_string());
}

#[test]
fn decimal_is_appended() {
    let mut text = String::from("n=");
    push_decimal(&mut text, 65000);
    assert_eq!(text, "n=65000");
}

#[test]
fn spaces_are_appended() {
    let mut text = String::from("ab");
    push_spaces(&mut text, 0);
    assert_eq!(text, "ab");
    push_spaces(&mut text, 3);
    assert_eq!(text, "ab   ");
}
