use app_core::buzz::{BuzzAction, BuzzPattern};

#[test]
fn no_toggle_before_on_phase_elapses() {
    let mut p = BuzzPattern::start(100, 400, 0);
    assert_eq!(p.tick(50), BuzzAction::Nothing);
    assert_eq!(p.tick(99), BuzzAction::Nothing);
}

#[test]
fn turns_off_at_end_of_on_phase() {
    let mut p = BuzzPattern::start(100, 400, 0);
    assert_eq!(p.tick(100), BuzzAction::TurnOff);
    assert_eq!(p.tick(100), BuzzAction::Nothing);
}

#[test]
fn cycles_on_off_on_off() {
    let mut p = BuzzPattern::start(100, 400, 0);
    assert_eq!(p.tick(100), BuzzAction::TurnOff);
    assert_eq!(p.tick(499), BuzzAction::Nothing);
    assert_eq!(p.tick(500), BuzzAction::TurnOn);
    assert_eq!(p.tick(599), BuzzAction::Nothing);
    assert_eq!(p.tick(600), BuzzAction::TurnOff);
}

#[test]
fn late_tick_flips_once_and_restarts_phase() {
    let mut p = BuzzPattern::start(100, 400, 1000);
    // Far past the on phase: one flip only, the off phase starts now.
    assert_eq!(p.tick(5000), BuzzAction::TurnOff);
    assert_eq!(p.tick(5399), BuzzAction::Nothing);
    assert_eq!(p.tick(5400), BuzzAction::TurnOn);
}
