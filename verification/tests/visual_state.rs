use tt_audio_lab::telemetry::RuntimeVisualState;

#[test]
fn the_pause_flag_starts_cleared() {
    let state = RuntimeVisualState::default();
    assert!(!state.is_paused());
}

#[test]
fn the_pause_flag_reads_back_what_was_set() {
    let state = RuntimeVisualState::default();
    state.set_paused(true);
    assert!(state.is_paused());
    state.set_paused(true);
    assert!(state.is_paused());
    state.set_paused(false);
    assert!(!state.is_paused());
}

#[test]
fn clones_share_one_pause_flag() {
    let state = RuntimeVisualState::default();
    let handle = state.clone();
    handle.set_paused(true);
    assert!(state.is_paused());
    state.set_paused(false);
    assert!(!handle.is_paused());
}
