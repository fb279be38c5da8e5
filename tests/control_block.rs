use stm_core::{BlockState, ControlBlock, WaitStep, DEFAULT_PARK_TIMEOUT_MS};

#[test]
fn blocked() {
    let ctrl = ControlBlock::new();
    // nothing has changed: a waiting thread suspends, and keeps doing so
    assert_eq!(ctrl.wait_step(), WaitStep::Park(1000));
    assert_eq!(ctrl.wait_step(), WaitStep::Park(1000));
}

#[test]
fn wait_after_change() {
    let ctrl = ControlBlock::new();
    // the only signal owes the wake
    assert!(ctrl.set_changed());
    // waiting finishes at once
    assert_eq!(ctrl.wait_step(), WaitStep::Return);
}

#[test]
fn wait_after_multiple_changes() {
    let ctrl = ControlBlock::new();
    assert!(ctrl.set_changed());
    assert!(!ctrl.set_changed());
    assert!(!ctrl.set_changed());
    assert!(!ctrl.set_changed());
    // waiting finishes at once
    assert_eq!(ctrl.wait_step(), WaitStep::Return);
}

#[test]
fn default_and_custom_park_timeout() {
    let mut ctrl = ControlBlock::new();
    assert_eq!(DEFAULT_PARK_TIMEOUT_MS, 1000);
    assert_eq!(ctrl.park_timeout_ms(), 1000);
    ctrl.set_park_timeout(250);
    assert_eq!(ctrl.park_timeout_ms(), 250);
    assert_eq!(ctrl.wait_step(), WaitStep::Park(250));
    ctrl.set_changed();
    assert_eq!(ctrl.wait_step(), WaitStep::Return);
}

#[test]
fn one_wake_over_many_signals() {
    let mut s = BlockState::new();
    assert!(s.blocked);
    assert_eq!(s.wait_step(50), WaitStep::Park(50));
    let wakes = (0..4).filter(|_| s.set_changed()).count();
    assert_eq!(wakes, 1);
    assert!(!s.blocked);
    assert_eq!(s.wait_step(50), WaitStep::Return);
}

#[test]
fn signal_on_unblocked_state_owes_nothing() {
    let mut s = BlockState { blocked: false };
    assert!(!s.set_changed());
    assert_eq!(s, BlockState { blocked: false });
}

#[test]
fn signalled_flag_clears_block() {
    assert!(!BlockState::signalled_flag());
    let mut s = BlockState::new();
    s.set_changed();
    assert_eq!(s, BlockState { blocked: BlockState::signalled_flag() });
}
