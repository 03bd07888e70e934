use editor_scroll::geometry::{
    advance_less_one, count_whole_units, length_of_units, saturating_sum, size_of_length, Vector2,
    UNIT,
};

#[test]
fn unit_is_two_to_the_sixteenth() {
    assert_eq!(UNIT, 65_536);
}

#[test]
fn saturating_sum_adds_within_range() {
    assert_eq!(saturating_sum(40, 2), 42);
    assert_eq!(saturating_sum(-40, 2), -38);
    assert_eq!(saturating_sum(i64::MAX, -1), i64::MAX - 1);
}

#[test]
fn saturating_sum_stops_at_both_ends() {
    assert_eq!(saturating_sum(i64::MAX, 1), i64::MAX);
    assert_eq!(saturating_sum(i64::MAX, i64::MAX), i64::MAX);
    assert_eq!(saturating_sum(i64::MIN, -1), i64::MIN);
    assert_eq!(saturating_sum(i64::MIN, i64::MIN), i64::MIN);
}

#[test]
fn advance_less_one_takes_one_unit_off() {
    assert_eq!(advance_less_one(10 * UNIT, 5 * UNIT), 14 * UNIT);
    assert_eq!(advance_less_one(0, 0), -UNIT);
    assert_eq!(advance_less_one(i64::MAX, UNIT), i64::MAX);
    assert_eq!(advance_less_one(i64::MAX, UNIT + 1), i64::MAX);
    assert_eq!(advance_less_one(i64::MIN, 0), i64::MIN);
    assert_eq!(advance_less_one(i64::MIN, UNIT), i64::MIN);
}

#[test]
fn length_of_units_scales_by_unit() {
    assert_eq!(length_of_units(0), 0);
    assert_eq!(length_of_units(42), 42 * UNIT);
    assert_eq!(length_of_units(u32::MAX), (u32::MAX as i64) * UNIT);
}

#[test]
fn whole_units_round_towards_zero() {
    assert_eq!(count_whole_units(0), 0);
    assert_eq!(count_whole_units(1), 0);
    assert_eq!(count_whole_units(UNIT - 1), 0);
    assert_eq!(count_whole_units(UNIT), 1);
    assert_eq!(count_whole_units(42 * UNIT + UNIT / 2), 42);
}

#[test]
fn whole_units_of_negative_length_is_zero() {
    assert_eq!(count_whole_units(-1), 0);
    assert_eq!(count_whole_units(-5 * UNIT), 0);
    assert_eq!(count_whole_units(i64::MIN), 0);
}

#[test]
fn whole_units_stop_at_u32_max() {
    assert_eq!(count_whole_units((u32::MAX as i64) * UNIT), u32::MAX);
    assert_eq!(count_whole_units((u32::MAX as i64) * UNIT - 1), u32::MAX - 1);
    assert_eq!(count_whole_units((u32::MAX as i64 + 1) * UNIT), u32::MAX);
    assert_eq!(count_whole_units(i64::MAX), u32::MAX);
}

#[test]
fn size_of_length_drops_the_sign() {
    assert_eq!(size_of_length(0), 0);
    assert_eq!(size_of_length(7), 7);
    assert_eq!(size_of_length(-7), 7);
    assert_eq!(size_of_length(i64::MAX), i64::MAX as u64);
    assert_eq!(size_of_length(i64::MIN), 1u64 << 63);
}

#[test]
fn vector_new_and_zero() {
    assert_eq!(Vector2::new(3, -4), Vector2 { x: 3, y: -4 });
    assert_eq!(Vector2::zero(), Vector2 { x: 0, y: 0 });
}

#[test]
fn vector_max_is_elementwise() {
    let v = Vector2::new(-3, 9).max(Vector2::new(0, 0));
    assert_eq!(v, Vector2::new(0, 9));
    let w = Vector2::new(5, -9).max(Vector2::new(2, -1));
    assert_eq!(w, Vector2::new(5, -1));
}

#[test]
fn vector_plus_saturates_each_component() {
    assert_eq!(Vector2::new(1, 2).plus(Vector2::new(10, 20)), Vector2::new(11, 22));
    assert_eq!(
        Vector2::new(i64::MAX, i64::MIN).plus(Vector2::new(1, -1)),
        Vector2::new(i64::MAX, i64::MIN)
    );
}
