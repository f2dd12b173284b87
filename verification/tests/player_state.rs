use side_effect_core::player_state::PlayerState;

#[test]
fn activate_is_idempotent() {
    let mut s = PlayerState::new();
    s.activate();
    assert!(s.is_active);
    assert_eq!(s.time_since_changed, 0);
    s.advance(100);
    assert_eq!(s.time_since_changed, 100);
    // A second activate must not reset the clock.
    s.activate();
    assert!(s.is_active);
    assert_eq!(s.time_since_changed, 100);
}

#[test]
fn deactivate_right_after_activate_resets_clock() {
    let mut s = PlayerState::new();
    s.advance(500);
    s.activate();
    s.deactivate();
    assert!(!s.is_active);
    assert_eq!(s.time_since_changed, 0);
}

#[test]
fn deactivate_is_idempotent() {
    let mut s = PlayerState::new();
    s.activate();
    s.deactivate();
    s.advance(70);
    s.deactivate();
    assert!(!s.is_active);
    assert_eq!(s.time_since_changed, 70);
}

#[test]
fn set_dispatches_to_activate_and_deactivate() {
    let mut s = PlayerState::new();
    s.set(true);
    assert!(s.is_active);
    assert_eq!(s.time_since_changed, 0);
    s.advance(40);
    s.set(true);
    assert_eq!(s.time_since_changed, 40);
    s.set(false);
    assert!(!s.is_active);
    assert_eq!(s.time_since_changed, 0);
}

#[test]
fn advance_accumulates_active_or_not() {
    let mut s = PlayerState::new();
    s.advance(16);
    s.advance(16);
    assert_eq!(s.time_since_changed, 32);
    s.activate();
    s.advance(16);
    assert_eq!(s.time_since_changed, 16);
}

#[test]
fn elapsed_time_getters_follow_the_active_flag() {
    let mut s = PlayerState::new();
    s.advance(120);
    assert_eq!(s.time_since_activated(), 0);
    assert_eq!(s.time_since_deactivated(), 120);
    s.activate();
    s.advance(80);
    assert_eq!(s.time_since_activated(), 80);
    assert_eq!(s.time_since_deactivated(), 0);
}
