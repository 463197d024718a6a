use spp::estimate::{eta, interval_steps, percent, rounded_quotient};

#[test]
fn quotient_is_rounded_to_the_nearest() {
    assert_eq!(rounded_quotient(0, 3), 0);
    assert_eq!(rounded_quotient(1, 3), 0);
    assert_eq!(rounded_quotient(2, 3), 1);
    assert_eq!(rounded_quotient(3, 3), 1);
    assert_eq!(rounded_quotient(10, 4), 3);
    assert_eq!(rounded_quotient(9, 4), 2);
    assert_eq!(rounded_quotient(11, 4), 3);
}

#[test]
fn quotient_tie_goes_upward() {
    assert_eq!(rounded_quotient(1, 2), 1);
    assert_eq!(rounded_quotient(5, 10), 1);
    assert_eq!(rounded_quotient(15, 10), 2);
    assert_eq!(rounded_quotient(25, 10), 3);
}

#[test]
fn quotient_at_the_limits_of_the_type() {
    assert_eq!(rounded_quotient(u128::MAX, 1), u128::MAX);
    assert_eq!(rounded_quotient(u128::MAX, u128::MAX), 1);
    assert_eq!(rounded_quotient(u128::MAX - 1, u128::MAX), 1);
    assert_eq!(rounded_quotient(u128::MAX / 2, u128::MAX), 0);
    assert_eq!(rounded_quotient(u128::MAX / 2 + 1, u128::MAX), 1);
    assert_eq!(rounded_quotient(u128::MAX, 2), u128::MAX / 2 + 1);
}

#[test]
fn percent_is_in_hundredths() {
    assert_eq!(percent(0, 10), 0);
    assert_eq!(percent(1, 10), 1000);
    assert_eq!(percent(5, 10), 5000);
    assert_eq!(percent(10, 10), 10000);
    assert_eq!(percent(300, 500), 6000);
    assert_eq!(percent(1, 8), 1250);
}

#[test]
fn percent_is_rounded_to_the_nearest_hundredth() {
    assert_eq!(percent(1, 3), 3333);
    assert_eq!(percent(2, 3), 6667);
    assert_eq!(percent(1, 7), 1429);
    assert_eq!(percent(1, 20000), 1);
    assert_eq!(percent(1, 20001), 0);
}

#[test]
fn percent_beyond_the_total_is_over_one_hundred() {
    assert_eq!(percent(15, 10), 15000);
    assert_eq!(percent(usize::MAX, 1), (usize::MAX as u128) * 10000);
}

#[test]
fn interval_steps_follow_the_average_speed() {
    // 300 steps in 3 s are 100 steps per second: 5 steps in 50 ms.
    assert_eq!(interval_steps(50_000_000, 300, 3_000_000_000), 5);
    // 10 steps in 4 s are 2.5 steps per second: 2 steps in a second, rounded down.
    assert_eq!(interval_steps(1_000_000_000, 10, 4_000_000_000), 2);
    assert_eq!(interval_steps(50_000_000, 0, 3_000_000_000), 0);
    assert_eq!(interval_steps(0, 300, 3_000_000_000), 0);
    // Fewer than one step per interval.
    assert_eq!(interval_steps(50_000_000, 10, 3_000_000_000), 0);
}

#[test]
fn interval_steps_at_the_limits_of_the_types() {
    let expected = (u64::MAX as u128) * (usize::MAX as u128);
    assert_eq!(interval_steps(u64::MAX, usize::MAX, 1), expected);
    assert_eq!(interval_steps(u64::MAX, usize::MAX, u64::MAX), usize::MAX as u128);
}

#[test]
fn eta_is_in_hundredths_of_a_second() {
    // 200 steps left at 100 steps per second.
    assert_eq!(eta(500, 300, 3_000_000_000), 200);
    // 2 steps left at a quarter of a step per second.
    assert_eq!(eta(3, 1, 4_000_000_000), 800);
    assert_eq!(eta(3, 2, 4_000_000_000), 200);
    assert_eq!(eta(10, 10, 3_000_000_000), 0);
}

#[test]
fn eta_is_rounded_to_the_nearest_hundredth() {
    // 7 steps left, 3 done in 2.5 s: 5.8333 s.
    assert_eq!(eta(10, 3, 2_500_000_000), 583);
    // 1 step left, 1 done in 2.005 s: the tie goes upward.
    assert_eq!(eta(2, 1, 2_005_000_000), 201);
    assert_eq!(eta(2, 1, 2_004_999_999), 200);
}

#[test]
fn eta_beyond_the_total_is_the_time_since_the_end() {
    // 5 steps beyond the total at 5 steps per second.
    assert_eq!(eta(10, 15, 3_000_000_000), 100);
}

#[test]
fn eta_at_the_limits_of_the_types() {
    let work = (usize::MAX as u128 - 1) * (u64::MAX as u128);
    assert_eq!(eta(usize::MAX, 1, u64::MAX), rounded_quotient(work, 10_000_000));
}
