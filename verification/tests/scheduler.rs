use socs_bot::state::SharedState;

fn state_with_cache(cache: Vec<String>) -> SharedState {
    SharedState {
        cookie: String::new(),
        element_cache: cache,
        loop_running: false,
        queried_this_window: false,
        channel_id: 1,
    }
}

#[test]
fn window_gate_eligible_times_only() {
    let s = state_with_cache(vec![]);
    assert!(s.should_fetch(0, 0));
    assert!(s.should_fetch(0, 2));
    assert!(!s.should_fetch(0, 1));
    assert!(!s.should_fetch(1, 0));
}

#[test]
fn debounce_blocks_second_fetch_in_same_window() {
    let mut s = state_with_cache(vec![]);
    assert!(s.should_fetch(0, 0));
    let _ = s.record_fetch(None);
    assert!(s.queried_this_window);
    assert!(!s.should_fetch(0, 0));
}

#[test]
fn window_exit_resets_debounce_flag() {
    let mut s = state_with_cache(vec![]);
    let _ = s.record_fetch(None);
    assert!(s.queried_this_window);
    s.window_exit_reset(3);
    assert!(!s.queried_this_window);
}

#[test]
fn debounce_flag_survives_while_minute_is_eligible() {
    let mut s = state_with_cache(vec![]);
    let _ = s.record_fetch(None);
    s.window_exit_reset(0);
    assert!(s.queried_this_window);
    s.window_exit_reset(2);
    assert!(s.queried_this_window);
}

#[test]
fn unchanged_extraction_is_silent_and_still_debounces() {
    let mut s = state_with_cache(vec!["A".to_string(), "B".to_string()]);
    let notify = s.record_fetch(Some(vec!["A".to_string(), "B".to_string()]));
    assert!(!notify);
    assert_eq!(s.element_cache, vec!["A".to_string(), "B".to_string()]);
    assert!(s.queried_this_window);
}

#[test]
fn reordered_extraction_counts_as_change() {
    let mut s = state_with_cache(vec!["A".to_string(), "B".to_string()]);
    let notify = s.record_fetch(Some(vec!["B".to_string(), "A".to_string()]));
    assert!(notify);
    assert_eq!(s.element_cache, vec!["B".to_string(), "A".to_string()]);
}

#[test]
fn failed_extraction_changes_nothing_but_the_flag() {
    let mut s = state_with_cache(vec!["A".to_string()]);
    let notify = s.record_fetch(None);
    assert!(!notify);
    assert_eq!(s.element_cache, vec!["A".to_string()]);
    assert!(s.queried_this_window);
}

#[test]
fn seed_replaces_cache_without_touching_flags() {
    let mut s = state_with_cache(vec![]);
    s.seed_cache(Some(vec!["X".to_string()]));
    assert_eq!(s.element_cache, vec!["X".to_string()]);
    assert!(!s.queried_this_window);
    assert!(!s.loop_running);
}

#[test]
fn seed_with_failed_extraction_keeps_cache() {
    let mut s = state_with_cache(vec!["A".to_string()]);
    s.seed_cache(None);
    assert_eq!(s.element_cache, vec!["A".to_string()]);
}

#[test]
fn seed_with_empty_extraction_keeps_cache() {
    let mut s = state_with_cache(vec!["A".to_string()]);
    s.seed_cache(Some(vec![]));
    assert_eq!(s.element_cache, vec!["A".to_string()]);
}

#[test]
fn loop_latch_starts_exactly_once() {
    let mut s = SharedState::new("k=v".to_string(), 42);
    assert!(s.try_start_loop());
    assert!(s.loop_running);
    assert!(!s.try_start_loop());
    assert!(s.loop_running);
}

#[test]
fn new_state_is_empty_and_idle() {
    let s = SharedState::new("c=1".to_string(), 9);
    assert_eq!(s.cookie, "c=1");
    assert!(s.element_cache.is_empty());
    assert!(!s.loop_running);
    assert!(!s.queried_this_window);
    assert_eq!(s.channel_id, 9);
}

#[test]
fn clock_reading_is_in_range() {
    let (hour, minute) = socs_bot::schedule::current_hour_minute();
    assert!(hour < 24);
    assert!(minute < 60);
}
