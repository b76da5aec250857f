use chinchilib::{HandlerState, WaitAction};

#[test]
fn new_handler_uses_tick_period() {
    let h = HandlerState::new((320, 200), 60);
    assert_eq!(h.width, 320);
    assert_eq!(h.height, 200);
    assert_eq!(h.tick_nanos, 16_666_666);
    assert!(!h.init_done);
    assert!(!h.always_tick);
}

#[test]
fn always_tick_is_set() {
    let mut h = HandlerState::new((1, 1), 30);
    h.set_always_tick(true);
    assert!(h.always_tick);
    h.set_always_tick(false);
    assert!(!h.always_tick);
}

#[test]
fn window_is_set_up_once() {
    let mut h = HandlerState::new((1, 1), 30);
    assert!(h.resumed(true));
    assert!(h.init_done);
    assert!(!h.resumed(true));
    assert!(!h.resumed(false));
}

#[test]
fn wait_decisions() {
    let mut h = HandlerState::new((1, 1), 1);
    assert_eq!(h.last_frame_nanos, 0);
    assert_eq!(h.about_to_wait(true, 5_000_000_000), WaitAction::Exit);
    assert_eq!(h.about_to_wait(true, 0), WaitAction::Exit);
    assert_eq!(h.last_frame_nanos, 0);
    assert_eq!(h.about_to_wait(false, 999_999_999), WaitAction::Wait);
    assert_eq!(h.about_to_wait(false, 1_000_000_000), WaitAction::Tick);
    assert_eq!(h.last_frame_nanos, 1_000_000_000);
    assert_eq!(h.about_to_wait(false, 1_500_000_000), WaitAction::Wait);
    assert_eq!(h.about_to_wait(false, 500_000_000), WaitAction::Wait);
    assert_eq!(h.about_to_wait(false, 2_000_000_000), WaitAction::Tick);
    assert_eq!(h.last_frame_nanos, 2_000_000_000);
    assert_eq!(h.about_to_wait(false, u128::MAX), WaitAction::Tick);
    assert_eq!(h.last_frame_nanos, u128::MAX);
}

#[test]
fn zero_rate_never_ticks_in_practice() {
    let mut h = HandlerState::new((1, 1), 0);
    assert_eq!(h.tick_nanos, u64::MAX);
    assert_eq!(h.about_to_wait(false, u64::MAX as u128 - 1), WaitAction::Wait);
    assert_eq!(h.about_to_wait(false, u64::MAX as u128), WaitAction::Tick);
}

#[test]
fn always_tick_polls_between_ticks() {
    let mut h = HandlerState::new((1, 1), 1);
    h.set_always_tick(true);
    assert_eq!(h.about_to_wait(false, 999_999_999), WaitAction::Poll);
    assert_eq!(h.about_to_wait(false, 1_000_000_000), WaitAction::Tick);
    assert_eq!(h.about_to_wait(true, 0), WaitAction::Exit);
    h.set_always_tick(false);
    assert_eq!(h.about_to_wait(false, 1_000_000_001), WaitAction::Wait);
    assert_eq!(h.last_frame_nanos, 1_000_000_000);
}

#[test]
fn no_window_without_pending_app() {
    let mut h = HandlerState::new((1, 1), 30);
    assert!(!h.resumed(false));
    assert!(h.init_done);
    assert!(!h.resumed(true));
}
