use hezardastan_core::security::kill_switch::{
    health_check_states, KillSwitchManager, KillSwitchState,
};

#[test]
fn test_kill_switch_flow() {
    // An enabled manager publishes Active, Triggered, Active in exactly that
    // order; a subscriber observes each value in turn through the watch cell.
    let mut manager = KillSwitchManager::new(true);
    let receiver = manager.subscribe_state();

    assert_eq!(*receiver.borrow(), KillSwitchState::Disabled);

    manager.set_state(KillSwitchState::Active);
    assert_eq!(*receiver.borrow(), KillSwitchState::Active);

    manager.set_state(KillSwitchState::Triggered);
    assert_eq!(*receiver.borrow(), KillSwitchState::Triggered);

    manager.set_state(KillSwitchState::Active);
    assert_eq!(*receiver.borrow(), KillSwitchState::Active);

    println!("Kill Switch test completed.");
}

#[test]
fn test_kill_switch_disabled() {
    let mut manager = KillSwitchManager::new(false);
    let receiver = manager.subscribe_state();

    assert_eq!(*receiver.borrow(), KillSwitchState::Disabled);

    // Try to set state; it should remain Disabled.
    manager.set_state(KillSwitchState::Active);
    assert_eq!(*receiver.borrow(), KillSwitchState::Disabled);

    manager.set_state(KillSwitchState::Triggered);
    assert_eq!(*receiver.borrow(), KillSwitchState::Disabled);
}

#[test]
fn test_kill_switch_disabled_current_state() {
    let mut manager = KillSwitchManager::new(false);
    assert!(!manager.is_enabled());
    for s in [
        KillSwitchState::Active,
        KillSwitchState::Triggered,
        KillSwitchState::Active,
        KillSwitchState::Disabled,
        KillSwitchState::Triggered,
    ] {
        manager.set_state(s);
        assert_eq!(manager.current_state(), KillSwitchState::Disabled);
    }
}

#[test]
fn test_kill_switch_subscriber_waits_for_changes() {
    // The non-polling wait: a subscriber parked on `changed` wakes for a new
    // value published from another task.
    let rt = tokio::runtime::Runtime::new().unwrap();
    rt.block_on(async {
        let manager = KillSwitchManager::new(true);
        let mut receiver = manager.subscribe_state();

        let publisher = tokio::spawn(async move {
            let mut manager = manager;
            manager.set_state(KillSwitchState::Active);
            manager.set_state(KillSwitchState::Triggered);
            manager
        });
        let manager = publisher.await.unwrap();

        receiver.changed().await.unwrap();
        assert_eq!(*receiver.borrow(), KillSwitchState::Triggered);
        assert_eq!(manager.current_state(), KillSwitchState::Triggered);
    });
}

#[test]
fn test_kill_switch_clone_shares_cell() {
    let manager = KillSwitchManager::new(true);
    let receiver = manager.subscribe_state();
    let mut clone = manager.clone();
    clone.set_state(KillSwitchState::Triggered);
    assert_eq!(*receiver.borrow(), KillSwitchState::Triggered);
}

#[test]
fn test_health_check_states_sequence() {
    let states = health_check_states();
    assert_eq!(
        states,
        vec![
            KillSwitchState::Active,
            KillSwitchState::Triggered,
            KillSwitchState::Active,
        ]
    );
}
