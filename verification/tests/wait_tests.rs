use shm_ipc::wait::{WaitAction, WaitStrategy, WakeAction};

#[test]
fn the_factory_selects_the_strategy() {
    assert_eq!(WaitStrategy::new(false), WaitStrategy::Spin);
    assert_eq!(WaitStrategy::new(true), WaitStrategy::Block);
}

#[test]
fn spin_hints_while_the_predicate_holds() {
    assert_eq!(WaitStrategy::Spin.wait_while(7u64, true), WaitAction::Again);
    assert_eq!(WaitStrategy::Spin.wait_while(-3i32, true), WaitAction::Again);
}

#[test]
fn block_parks_on_the_value_it_was_asked_about() {
    assert_eq!(WaitStrategy::Block.wait_while(7u64, true), WaitAction::Park { expected: 7u64 });
    assert_eq!(WaitStrategy::Block.wait_while(-3i32, true), WaitAction::Park { expected: -3i32 });
}

#[test]
fn a_false_predicate_ends_the_wait_at_once() {
    assert_eq!(WaitStrategy::Spin.wait_while(7u64, false), WaitAction::Proceed);
    assert_eq!(WaitStrategy::Block.wait_while(7u64, false), WaitAction::Proceed);
}

#[test]
fn spin_with_a_false_predicate_is_idempotent() {
    let strategy = WaitStrategy::Spin;
    for value in 0..100u64 {
        assert_eq!(strategy.wait_while(value, false), WaitAction::Proceed);
        assert_eq!(strategy.wait_while(value, false), WaitAction::Proceed);
    }
    assert_eq!(strategy, WaitStrategy::Spin);
}

#[test]
fn wake_is_a_no_op_for_spin() {
    assert_eq!(WaitStrategy::Spin.wake(1), WakeAction::Nothing);
    assert_eq!(WaitStrategy::Spin.wake(0), WakeAction::Nothing);
    assert_eq!(WaitStrategy::Spin.wake(u32::MAX), WakeAction::Nothing);
}

#[test]
fn wake_notifies_up_to_count_for_block() {
    assert_eq!(WaitStrategy::Block.wake(1), WakeAction::Notify { count: 1 });
    assert_eq!(WaitStrategy::Block.wake(5), WakeAction::Notify { count: 5 });
    assert_eq!(WaitStrategy::Block.wake(0), WakeAction::Notify { count: 0 });
}
