use icap_reqmod::runstate::AdaptationRunState;

#[test]
fn fresh_state_has_no_marks() {
    let state = AdaptationRunState::new();
    assert!(!state.ups_send_header());
    assert!(!state.ups_send_all());
}

#[test]
fn marks_are_monotonic_and_ordered() {
    let mut state = AdaptationRunState::new();
    state.mark_ups_send_header();
    assert!(state.ups_send_header());
    assert!(!state.ups_send_all());

    state.mark_ups_send_all();
    assert!(state.ups_send_header());
    assert!(state.ups_send_all());

    // Re-marking clears nothing.
    state.mark_ups_send_header();
    assert!(state.ups_send_header());
    assert!(state.ups_send_all());
}
