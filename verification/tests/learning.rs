use alvr_bravr::learning_env::{classify_switch, ActionHistory, SwitchKind, STATE_DIM};

#[test]
fn state_has_fifteen_features() {
    assert_eq!(STATE_DIM, 15);
}

#[test]
fn momentum_and_steps() {
    let mut h = ActionHistory::new();
    h.update_last_action(2);
    assert_eq!((h.action_momentum, h.last_switch_steps), (1, 0));
    h.update_last_action(1);
    h.update_last_action(1);
    assert_eq!((h.action_momentum, h.last_switch_steps), (0, 2));
    h.update_last_action(0);
    assert_eq!((h.action_momentum, h.last_switch_steps), (-1, 0));
    h.update_last_action(1);
    h.update_last_action(5);
    assert_eq!((h.action_momentum, h.last_switch_steps), (0, 0));
}

#[test]
fn steps_count_holds_since_last_switch() {
    let mut h = ActionHistory { action_momentum: 0, last_switch_steps: 40 };
    h.update_last_action(0);
    for _ in 0..7 {
        h.update_last_action(1);
    }
    assert_eq!(h.last_switch_steps, 7);
}

#[test]
fn switch_kinds() {
    assert_eq!(classify_switch(Some(2), Some(2)), SwitchKind::NoSwitch);
    assert_eq!(classify_switch(None, None), SwitchKind::NoSwitch);
    assert_eq!(classify_switch(Some(2), Some(1)), SwitchKind::Down);
    assert_eq!(classify_switch(Some(1), Some(2)), SwitchKind::Up);
    assert_eq!(classify_switch(Some(0), None), SwitchKind::Down);
    assert_eq!(classify_switch(None, Some(0)), SwitchKind::Up);
}
