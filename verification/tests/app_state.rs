use app_core::{AppEvent, AppState};

#[test]
fn tick_increments_count() {
    let mut state = AppState::new();
    state.update(&AppEvent::Tick(1000));
    state.update(&AppEvent::Tick(2000));
    assert_eq!(state.tick_count, 2);
}

#[test]
fn touch_does_not_increment_tick() {
    let mut state = AppState::new();
    state.update(&AppEvent::Touch { x: 10, y: 20 });
    assert_eq!(state.tick_count, 0);
}

#[test]
fn release_does_not_increment_tick() {
    let mut state = AppState::default();
    state.update(&AppEvent::Tick(5));
    state.update(&AppEvent::TouchRelease);
    assert_eq!(state, AppState { tick_count: 1 });
}
