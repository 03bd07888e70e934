use editor_scroll::geometry::{Vector2, UNIT};
use editor_scroll::ongoing::{
    Axis, OngoingScroll, SCROLL_EVENT_SEPARATION, UNLOCK_LOWER_BOUND, UNLOCK_PERCENT,
};

fn idle() -> OngoingScroll {
    OngoingScroll { last_event: 1_000, axis: None }
}

fn locked(axis: Axis) -> OngoingScroll {
    OngoingScroll { last_event: 1_000, axis: Some(axis) }
}

const LATER: u64 = 1_000 + SCROLL_EVENT_SEPARATION + 1;
const SOON: u64 = 1_000 + 1_000_000;

#[test]
fn constants_have_their_values() {
    assert_eq!(SCROLL_EVENT_SEPARATION, 28_000_000);
    assert_eq!(UNLOCK_LOWER_BOUND as i64, 6 * UNIT);
    assert_eq!(UNLOCK_PERCENT, 190);
}

#[test]
fn new_gesture_locks_vertical_axis() {
    let mut delta = Vector2::new(3 * UNIT, 10 * UNIT);
    let axis = idle().filter(LATER, &mut delta);
    assert_eq!(axis, Some(Axis::Vertical));
    assert_eq!(delta, Vector2::new(0, 10 * UNIT));
}

#[test]
fn new_gesture_locks_horizontal_axis() {
    let mut delta = Vector2::new(10 * UNIT, 3 * UNIT);
    let axis = idle().filter(LATER, &mut delta);
    assert_eq!(axis, Some(Axis::Horizontal));
    assert_eq!(delta, Vector2::new(10 * UNIT, 0));
}

#[test]
fn new_gesture_tie_favours_vertical() {
    let mut delta = Vector2::new(-4 * UNIT, 4 * UNIT);
    let axis = idle().filter(LATER, &mut delta);
    assert_eq!(axis, Some(Axis::Vertical));
    assert_eq!(delta, Vector2::new(0, 4 * UNIT));
    let mut still = Vector2::new(0, 0);
    assert_eq!(idle().filter(LATER, &mut still), Some(Axis::Vertical));
    assert_eq!(still, Vector2::new(0, 0));
}

#[test]
fn new_gesture_compares_sizes_not_signs() {
    let mut delta = Vector2::new(-10 * UNIT, 3 * UNIT);
    let axis = idle().filter(LATER, &mut delta);
    assert_eq!(axis, Some(Axis::Horizontal));
    assert_eq!(delta, Vector2::new(-10 * UNIT, 0));
    let mut extreme = Vector2::new(i64::MAX, i64::MIN);
    assert_eq!(idle().filter(LATER, &mut extreme), Some(Axis::Vertical));
    assert_eq!(extreme, Vector2::new(0, i64::MIN));
}

#[test]
fn new_gesture_replaces_an_old_lock() {
    let mut delta = Vector2::new(10 * UNIT, 3 * UNIT);
    let axis = locked(Axis::Vertical).filter(LATER, &mut delta);
    assert_eq!(axis, Some(Axis::Horizontal));
    assert_eq!(delta, Vector2::new(10 * UNIT, 0));
}

#[test]
fn gap_of_exactly_the_separation_continues_the_gesture() {
    let mut delta = Vector2::new(UNIT, 3 * UNIT);
    let axis = locked(Axis::Horizontal).filter(1_000 + SCROLL_EVENT_SEPARATION, &mut delta);
    assert_eq!(axis, Some(Axis::Horizontal));
    assert_eq!(delta, Vector2::new(UNIT, 0));
}

#[test]
fn clock_before_last_event_continues_the_gesture() {
    let mut delta = Vector2::new(UNIT, 3 * UNIT);
    let axis = locked(Axis::Horizontal).filter(10, &mut delta);
    assert_eq!(axis, Some(Axis::Horizontal));
    assert_eq!(delta, Vector2::new(UNIT, 0));
}

#[test]
fn vertical_lock_unlocks_on_strong_horizontal_movement() {
    let mut delta = Vector2::new(20 * UNIT, 5 * UNIT);
    let axis = locked(Axis::Vertical).filter(SOON, &mut delta);
    assert_eq!(axis, None);
    assert_eq!(delta, Vector2::new(20 * UNIT, 5 * UNIT));
}

#[test]
fn horizontal_lock_unlocks_on_strong_vertical_movement() {
    let mut delta = Vector2::new(5 * UNIT, -20 * UNIT);
    let axis = locked(Axis::Horizontal).filter(SOON, &mut delta);
    assert_eq!(axis, None);
    assert_eq!(delta, Vector2::new(5 * UNIT, -20 * UNIT));
}

#[test]
fn lock_holds_below_the_lower_bound() {
    let mut delta = Vector2::new(6 * UNIT - 1, UNIT);
    let axis = locked(Axis::Vertical).filter(SOON, &mut delta);
    assert_eq!(axis, Some(Axis::Vertical));
    assert_eq!(delta, Vector2::new(0, UNIT));
}

#[test]
fn lock_gives_way_at_the_lower_bound() {
    let mut delta = Vector2::new(6 * UNIT, UNIT);
    let axis = locked(Axis::Vertical).filter(SOON, &mut delta);
    assert_eq!(axis, None);
    assert_eq!(delta, Vector2::new(6 * UNIT, UNIT));
}

#[test]
fn lock_holds_while_the_ratio_is_under_the_percent() {
    let mut delta = Vector2::new(1_899, 1_000);
    let wide = OngoingScroll { last_event: 1_000, axis: Some(Axis::Vertical) };
    let mut big = Vector2::new(1_899 * UNIT, 1_000 * UNIT);
    assert_eq!(wide.filter(SOON, &mut big), Some(Axis::Vertical));
    assert_eq!(big, Vector2::new(0, 1_000 * UNIT));
    assert_eq!(wide.filter(SOON, &mut delta), Some(Axis::Vertical));
    assert_eq!(delta, Vector2::new(0, 1_000));
}

#[test]
fn lock_gives_way_when_the_ratio_reaches_the_percent() {
    let mut delta = Vector2::new(1_900 * UNIT, 1_000 * UNIT);
    let axis = locked(Axis::Vertical).filter(SOON, &mut delta);
    assert_eq!(axis, None);
    assert_eq!(delta, Vector2::new(1_900 * UNIT, 1_000 * UNIT));
}

#[test]
fn lock_holds_when_movement_along_the_axis_is_larger() {
    let mut delta = Vector2::new(5 * UNIT, 20 * UNIT);
    let axis = locked(Axis::Vertical).filter(SOON, &mut delta);
    assert_eq!(axis, Some(Axis::Vertical));
    assert_eq!(delta, Vector2::new(0, 20 * UNIT));
    let mut along = Vector2::new(20 * UNIT, 5 * UNIT);
    assert_eq!(locked(Axis::Horizontal).filter(SOON, &mut along), Some(Axis::Horizontal));
    assert_eq!(along, Vector2::new(20 * UNIT, 0));
}

#[test]
fn unlocked_gesture_stays_unlocked() {
    let mut delta = Vector2::new(20 * UNIT, 5 * UNIT);
    let axis = idle().filter(SOON, &mut delta);
    assert_eq!(axis, None);
    assert_eq!(delta, Vector2::new(20 * UNIT, 5 * UNIT));
    let mut small = Vector2::new(1, 2);
    assert_eq!(idle().filter(SOON, &mut small), None);
    assert_eq!(small, Vector2::new(1, 2));
}

#[test]
fn unlock_test_does_not_overflow_on_extremes() {
    let mut delta = Vector2::new(i64::MIN, i64::MAX);
    let axis = locked(Axis::Vertical).filter(SOON, &mut delta);
    assert_eq!(axis, Some(Axis::Vertical));
    assert_eq!(delta, Vector2::new(0, i64::MAX));
    let mut across = Vector2::new(i64::MIN, 1);
    assert_eq!(locked(Axis::Vertical).filter(SOON, &mut across), None);
    assert_eq!(across, Vector2::new(i64::MIN, 1));
}

#[test]
fn filter_leaves_the_state_alone() {
    let ongoing = locked(Axis::Vertical);
    let mut delta = Vector2::new(20 * UNIT, 5 * UNIT);
    ongoing.filter(SOON, &mut delta);
    assert_eq!(ongoing, OngoingScroll { last_event: 1_000, axis: Some(Axis::Vertical) });
}

#[test]
fn new_ongoing_scroll_is_dated_one_separation_back() {
    let ongoing = OngoingScroll::new(100_000_000);
    assert_eq!(ongoing, OngoingScroll { last_event: 72_000_000, axis: None });
}

#[test]
fn new_ongoing_scroll_stops_at_the_clock_origin() {
    assert_eq!(OngoingScroll::new(5), OngoingScroll { last_event: 0, axis: None });
    assert_eq!(
        OngoingScroll::new(SCROLL_EVENT_SEPARATION),
        OngoingScroll { last_event: 0, axis: None }
    );
}

#[test]
fn first_event_after_creation_begins_a_gesture() {
    let ongoing = OngoingScroll::new(100_000_000);
    let mut delta = Vector2::new(3 * UNIT, 10 * UNIT);
    assert_eq!(ongoing.filter(100_000_001, &mut delta), Some(Axis::Vertical));
    assert_eq!(delta, Vector2::new(0, 10 * UNIT));
}
