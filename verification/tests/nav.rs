use app_core::nav::{NavStack, NAV_STACK_DEPTH};
use app_core::ui_types::ScreenId;

#[test]
fn empty_stack_pops_home() {
    let mut s = NavStack::new();
    assert_eq!(s.pop_or_home(), ScreenId::Clock);
}

#[test]
fn push_then_pop_round_trips() {
    let mut s = NavStack::new();
    s.push(ScreenId::Settings);
    assert_eq!(s.pop_or_home(), ScreenId::Settings);
    assert_eq!(s.pop_or_home(), ScreenId::Clock);
}

#[test]
fn lifo_order() {
    let mut s = NavStack::new();
    s.push(ScreenId::Clock);
    s.push(ScreenId::Settings);
    s.push(ScreenId::Timer);
    assert_eq!(s.pop_or_home(), ScreenId::Timer);
    assert_eq!(s.pop_or_home(), ScreenId::Settings);
    assert_eq!(s.pop_or_home(), ScreenId::Clock);
    assert_eq!(s.pop_or_home(), ScreenId::Clock);
}

#[test]
fn overflow_drops_silently() {
    let mut s = NavStack::new();
    for _ in 0..NAV_STACK_DEPTH + 3 {
        s.push(ScreenId::Clock);
    }
    assert_eq!(s.len(), NAV_STACK_DEPTH);
}

#[test]
fn peek_does_not_pop() {
    let mut s = NavStack::new();
    assert!(s.is_empty());
    assert_eq!(s.peek_or_home(), ScreenId::Clock);
    s.push(ScreenId::Alarm);
    assert_eq!(s.peek_or_home(), ScreenId::Alarm);
    assert_eq!(s.len(), 1);
    assert!(!s.is_empty());
}

#[test]
fn full_stack_keeps_oldest_entries() {
    let mut s = NavStack::new();
    s.push(ScreenId::Status);
    s.push(ScreenId::Timer);
    s.push(ScreenId::Alarm);
    s.push(ScreenId::Settings);
    s.push(ScreenId::Stopwatch);
    assert_eq!(s.pop_or_home(), ScreenId::Settings);
}
