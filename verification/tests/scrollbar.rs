use editor_scroll::effects::Effect;
use editor_scroll::scrollbar::{
    Scrollbar, ScrollbarAutoHide, ScrollbarState, SCROLLBAR_SHOW_INTERVAL,
};

const HIDE: ScrollbarAutoHide = ScrollbarAutoHide(true);
const KEEP: ScrollbarAutoHide = ScrollbarAutoHide(false);

fn start(token: u64) -> Effect {
    Effect::StartHideTimer { token, delay: SCROLLBAR_SHOW_INTERVAL }
}

#[test]
fn show_interval_is_one_second() {
    assert_eq!(SCROLLBAR_SHOW_INTERVAL, 1_000_000_000);
}

#[test]
fn auto_hide_is_off_by_default() {
    assert_eq!(ScrollbarAutoHide::default(), ScrollbarAutoHide(false));
}

#[test]
fn new_scrollbar_is_visible_without_timer() {
    let bar = Scrollbar::new();
    assert!(bar.visible());
    assert_eq!(bar, Scrollbar { state: ScrollbarState::Visible { timer: None }, next_token: 0 });
}

#[test]
fn show_with_auto_hide_starts_a_timer() {
    let mut bar = Scrollbar::new();
    let mut effects = Vec::new();
    bar.show(HIDE, &mut effects);
    assert_eq!(effects, vec![start(0)]);
    assert_eq!(bar, Scrollbar { state: ScrollbarState::Visible { timer: Some(0) }, next_token: 1 });
}

#[test]
fn show_without_auto_hide_cancels_the_timer() {
    let mut bar = Scrollbar::new();
    let mut effects = Vec::new();
    bar.show(HIDE, &mut effects);
    bar.show(KEEP, &mut effects);
    assert_eq!(effects, vec![start(0), Effect::CancelHideTimer]);
    assert_eq!(bar, Scrollbar { state: ScrollbarState::Visible { timer: None }, next_token: 1 });
    let mut fired = Vec::new();
    bar.timer_fired(0, &mut fired);
    assert!(fired.is_empty());
    assert!(bar.visible());
}

#[test]
fn show_appends_to_the_effects_it_is_given() {
    let mut bar = Scrollbar::new();
    let mut effects = vec![Effect::HideHover];
    bar.show(KEEP, &mut effects);
    assert_eq!(effects, vec![Effect::HideHover, Effect::CancelHideTimer]);
}

#[test]
fn pending_timer_hides_the_scrollbar() {
    let mut bar = Scrollbar::new();
    let mut effects = Vec::new();
    bar.show(HIDE, &mut effects);
    let mut fired = Vec::new();
    bar.timer_fired(0, &mut fired);
    assert_eq!(fired, vec![Effect::Redraw]);
    assert!(!bar.visible());
    assert_eq!(bar, Scrollbar { state: ScrollbarState::Hidden, next_token: 1 });
}

#[test]
fn superseded_timer_does_not_hide_the_scrollbar() {
    let mut bar = Scrollbar::new();
    let mut effects = Vec::new();
    bar.show(HIDE, &mut effects);
    bar.show(HIDE, &mut effects);
    assert_eq!(effects, vec![start(0), start(1)]);
    let mut fired = Vec::new();
    bar.timer_fired(0, &mut fired);
    assert!(fired.is_empty());
    assert!(bar.visible());
    assert_eq!(bar, Scrollbar { state: ScrollbarState::Visible { timer: Some(1) }, next_token: 2 });
    bar.timer_fired(1, &mut fired);
    assert_eq!(fired, vec![Effect::Redraw]);
    assert!(!bar.visible());
}

#[test]
fn timer_fires_only_once() {
    let mut bar = Scrollbar::new();
    let mut effects = Vec::new();
    bar.show(HIDE, &mut effects);
    let mut fired = Vec::new();
    bar.timer_fired(0, &mut fired);
    bar.timer_fired(0, &mut fired);
    assert_eq!(fired, vec![Effect::Redraw]);
    assert!(!bar.visible());
}

#[test]
fn unknown_token_changes_nothing() {
    let mut bar = Scrollbar::new();
    let mut fired = Vec::new();
    bar.timer_fired(77, &mut fired);
    assert!(fired.is_empty());
    assert_eq!(bar, Scrollbar::new());
}

#[test]
fn showing_a_hidden_scrollbar_redraws_first() {
    let mut bar = Scrollbar { state: ScrollbarState::Hidden, next_token: 5 };
    let mut effects = Vec::new();
    bar.show(HIDE, &mut effects);
    assert_eq!(effects, vec![Effect::Redraw, start(5)]);
    assert!(bar.visible());
    let mut bar = Scrollbar { state: ScrollbarState::Hidden, next_token: 5 };
    let mut effects = Vec::new();
    bar.show(KEEP, &mut effects);
    assert_eq!(effects, vec![Effect::Redraw, Effect::CancelHideTimer]);
    assert_eq!(bar, Scrollbar { state: ScrollbarState::Visible { timer: None }, next_token: 5 });
}

#[test]
fn tokens_start_over_after_the_last() {
    let mut bar = Scrollbar { state: ScrollbarState::Visible { timer: None }, next_token: u64::MAX };
    let mut effects = Vec::new();
    bar.show(HIDE, &mut effects);
    bar.show(HIDE, &mut effects);
    assert_eq!(effects, vec![start(u64::MAX), start(0)]);
    assert_eq!(bar, Scrollbar { state: ScrollbarState::Visible { timer: Some(0) }, next_token: 1 });
    let mut fired = Vec::new();
    bar.timer_fired(u64::MAX, &mut fired);
    assert!(fired.is_empty());
    assert!(bar.visible());
}

#[test]
fn timer_is_stale_after_many_shows() {
    let mut bar = Scrollbar::new();
    let mut effects = Vec::new();
    bar.show(HIDE, &mut effects);
    for round in 0..100 {
        bar.show(if round % 3 == 0 { KEEP } else { HIDE }, &mut effects);
    }
    let mut fired = Vec::new();
    bar.timer_fired(0, &mut fired);
    assert!(fired.is_empty());
    assert!(bar.visible());
}
