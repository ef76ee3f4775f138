//! Frame-by-frame behavior of the scroll viewport: stick-to-bottom,
//! anchor preservation, clamping, the animator, and the operation
//! gateway.

use scrollie::geometry::{ItemExtent, Rect};
use scrollie::operation::{apply_operation, ScrollOperation, ViewportRegistry};
use scrollie::scrollie::{AnimationState, State};

fn viewport(height: i64) -> Rect {
    Rect { x: 0, y: 0, width: 100, height }
}

fn items(heights: &[i64]) -> Vec<ItemExtent> {
    heights
        .iter()
        .map(|&h| ItemExtent { width: 100, height: h })
        .collect()
}

fn keys(n: u64) -> Vec<u64> {
    (0..n).collect()
}

#[test]
fn fresh_viewport_starts_at_the_bottom() {
    let mut state = State::new();
    state.update_layout(&items(&[40, 40, 40]), &vec![0, 1, 2], viewport(100));
    assert_eq!(state.translation, 20);
    assert!(state.is_at_bottom(state.bounds, state.content_bounds));
}

#[test]
fn appending_while_at_bottom_sticks_to_the_new_bottom() {
    let mut state = State::new();
    state.update_layout(&items(&[40, 40, 40]), &vec![0, 1, 2], viewport(100));
    assert_eq!(state.translation, 20);

    state.update_layout(&items(&[40, 40, 40, 40]), &vec![0, 1, 2, 3], viewport(100));
    assert_eq!(state.translation, 60);
    assert!(state.is_at_bottom(state.bounds, state.content_bounds));
}

#[test]
fn middle_insertion_keeps_the_anchor_item_stationary() {
    let mut state = State::new();
    state.update_layout(&items(&[50, 50, 50]), &vec![0, 1, 2], viewport(40));
    state.scroll_to(50);
    assert_eq!(state.translation, 50);

    state.update_layout(&items(&[50, 50, 50, 50]), &vec![0, 9, 1, 2], viewport(40));
    assert_eq!(state.translation, 100);
}

#[test]
fn middle_removal_keeps_the_anchor_item_stationary() {
    let mut state = State::new();
    state.update_layout(&items(&[50, 50, 50, 50]), &vec![0, 1, 2, 3], viewport(40));
    state.scroll_to(110);
    assert_eq!(state.translation, 110);

    state.update_layout(&items(&[50, 50, 50]), &vec![0, 2, 3], viewport(40));
    assert_eq!(state.translation, 60);
}

#[test]
fn removed_anchor_falls_back_to_the_same_index() {
    let mut state = State::new();
    state.update_layout(&items(&[50, 50, 50]), &vec![0, 1, 2], viewport(40));
    state.scroll_to(60);
    assert_eq!(state.translation, 60);

    state.update_layout(&items(&[50, 30, 50]), &vec![0, 7, 2], viewport(40));
    assert_eq!(state.translation, 60);
}

#[test]
fn empty_item_list_clamps_to_zero() {
    let mut state = State::new();
    state.update_layout(&items(&[50, 50]), &vec![0, 1], viewport(40));
    state.scroll_to(60);
    assert_eq!(state.translation, 60);

    state.update_layout(&items(&[]), &vec![], viewport(40));
    assert_eq!(state.translation, 0);
    assert_eq!(state.content_bounds.height, 0);
}

#[test]
fn scroll_to_clamps_into_the_valid_range() {
    let mut state = State::new();
    state.update_layout(&items(&[50, 50, 50]), &vec![0, 1, 2], viewport(100));

    state.scroll_to(-25);
    assert_eq!(state.translation, 0);
    state.scroll_to(99_999);
    assert_eq!(state.translation, 50);
    state.scroll_to(30);
    assert_eq!(state.translation, 30);
}

#[test]
fn wheel_deltas_compose_into_one_animation() {
    let mut state = State::new();
    state.update_layout(&items(&[100; 10]), &keys(10), viewport(100));
    state.scroll_to(0);

    state.add_scroll_delta(200);
    state.add_scroll_delta(100);
    match state.animation_state {
        AnimationState::Animating { start, target, progress } => {
            assert_eq!(start, 0);
            assert_eq!(target, 300);
            assert_eq!(progress, 0);
        }
        AnimationState::Idle => panic!("a wheel delta must start an animation"),
    }
    assert_eq!(state.translation, 0);
}

#[test]
fn ticks_interpolate_and_finish_exactly_at_the_target() {
    let mut state = State::new();
    state.update_layout(&items(&[100; 10]), &keys(10), viewport(100));
    state.scroll_to(0);

    state.add_scroll_delta(100);
    state.tick(5);
    assert_eq!(state.translation, 15);
    assert!(matches!(state.animation_state, AnimationState::Animating { .. }));

    state.tick(40);
    assert_eq!(state.translation, 100);
    assert!(matches!(state.animation_state, AnimationState::Idle));

    state.tick(40);
    assert_eq!(state.translation, 100);
}

#[test]
fn animation_target_is_clamped_at_the_content_edge() {
    let mut state = State::new();
    state.update_layout(&items(&[60, 60]), &vec![0, 1], viewport(100));
    state.scroll_to(0);

    state.add_scroll_delta(500);
    state.tick(34);
    assert_eq!(state.translation, 20);
    assert!(matches!(state.animation_state, AnimationState::Idle));
}

#[test]
fn jump_to_item_cancels_a_running_animation() {
    let mut state = State::new();
    state.update_layout(&items(&[100; 10]), &keys(10), viewport(100));
    state.scroll_to(0);

    state.add_scroll_delta(500);
    state.tick(5);
    assert!(matches!(state.animation_state, AnimationState::Animating { .. }));

    state.scroll_to_idx(0);
    assert_eq!(state.translation, 0);
    assert!(matches!(state.animation_state, AnimationState::Idle));

    state.tick(100);
    assert_eq!(state.translation, 0);
}

#[test]
fn out_of_range_jump_is_a_no_op() {
    let mut state = State::new();
    state.update_layout(&items(&[50, 50, 50]), &vec![0, 1, 2], viewport(100));
    state.scroll_to(30);
    let _ = state.take_notification();

    state.scroll_to_idx(17);
    assert_eq!(state.translation, 30);
    assert!(state.take_notification().is_none());
}

#[test]
fn notification_fires_once_per_change() {
    let mut state = State::new();
    state.update_layout(&items(&[50, 50, 50]), &vec![0, 1, 2], viewport(100));
    let first = state.take_notification().expect("the initial stick-to-bottom moved the offset");
    assert_eq!(first.translation, 50);
    assert!(first.is_at_bottom());
    assert!(!first.is_at_top());
    assert!(state.take_notification().is_none());

    state.scroll_to(0);
    let second = state.take_notification().expect("scrolling moved the offset");
    assert_eq!(second.translation, 0);
    assert!(second.is_at_top());
    assert!(!second.is_at_bottom());

    state.scroll_to(0);
    assert!(state.take_notification().is_none());
}

#[test]
fn anchoring_shifts_a_running_animation_with_the_content() {
    let mut state = State::new();
    state.update_layout(&items(&[50; 6]), &keys(6), viewport(40));
    state.scroll_to(60);

    state.add_scroll_delta(100);
    state.update_layout(&items(&[50; 7]), &vec![9, 0, 1, 2, 3, 4, 5], viewport(40));
    assert_eq!(state.translation, 110);
    match state.animation_state {
        AnimationState::Animating { start, target, .. } => {
            assert_eq!(start, 110);
            assert_eq!(target, 210);
        }
        AnimationState::Idle => panic!("the animation must survive the layout pass"),
    }
}

#[test]
fn snap_to_fractions_of_the_content() {
    let mut state = State::new();
    state.update_layout(&items(&[100; 4]), &keys(4), viewport(100));
    state.add_scroll_delta(10);

    state.snap_to(0);
    assert_eq!(state.translation, 0);
    assert!(matches!(state.animation_state, AnimationState::Idle));

    state.snap_to(1000);
    assert_eq!(state.translation, 300);

    state.snap_to(500);
    assert_eq!(state.translation, 200);
}

#[test]
fn scroll_by_and_scroll_to_absolute_are_immediate() {
    let mut state = State::new();
    state.update_layout(&items(&[100; 4]), &keys(4), viewport(100));
    state.scroll_to(0);

    state.scroll_by(120);
    assert_eq!(state.translation, 120);
    state.scroll_by(-40);
    assert_eq!(state.translation, 80);
    state.scroll_by(-500);
    assert_eq!(state.translation, 0);

    state.scroll_to_absolute(250);
    assert_eq!(state.translation, 250);
    state.scroll_to_absolute(9_999);
    assert_eq!(state.translation, 300);
}

#[test]
fn registry_dispatches_by_identity() {
    let mut registry = ViewportRegistry::new();
    let mut state = State::new();
    state.update_layout(&items(&[100; 4]), &keys(4), viewport(100));
    registry.register(7, state);

    assert!(!registry.apply(8, ScrollOperation::ScrollToAbsolute { offset: 50 }));
    assert!(registry.apply(7, ScrollOperation::ScrollToAbsolute { offset: 50 }));
    assert_eq!(registry.entries[0].1.translation, 50);

    assert!(registry.scroll_to_idx(7, 2));
    assert_eq!(registry.entries[0].1.translation, 200);

    assert!(!registry.scroll_to_idx(8, 0));
    assert_eq!(registry.entries[0].1.translation, 200);
}

#[test]
fn gateway_operations_cancel_animations() {
    let mut state = State::new();
    state.update_layout(&items(&[100; 10]), &keys(10), viewport(100));
    state.scroll_to(0);

    state.add_scroll_delta(500);
    apply_operation(&mut state, ScrollOperation::ScrollBy { delta: 25 });
    assert_eq!(state.translation, 25);
    assert!(matches!(state.animation_state, AnimationState::Idle));

    state.add_scroll_delta(500);
    apply_operation(&mut state, ScrollOperation::ScrollToRelative { fraction: 100 });
    assert_eq!(state.translation, 100);
    assert!(matches!(state.animation_state, AnimationState::Idle));
}
