use trading_engine::state_machine::State;

#[test]
fn test_state_checks() {
    assert!(State::Idle.is_idle());
    assert!(!State::Idle.is_analyzing());
    assert!(!State::Idle.is_in_position());

    assert!(State::Analyzing.is_analyzing());
    assert!(!State::Analyzing.is_idle());
    assert!(!State::Analyzing.is_in_position());

    assert!(State::InPosition.is_in_position());
    assert!(!State::InPosition.is_idle());
    assert!(!State::InPosition.is_analyzing());
}

#[test]
fn test_state_display() {
    assert_eq!(State::Idle.to_string(), "Idle");
    assert_eq!(State::Analyzing.to_string(), "Analyzing");
    assert_eq!(State::InPosition.to_string(), "InPosition");
}

#[test]
fn test_state_clone_copy() {
    let state = State::Analyzing;
    let state2 = state;
    assert_eq!(state, state2);
}
