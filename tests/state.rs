use raze_core::state::{DEFAULT_HEIGHT, DEFAULT_WIDTH};
use raze_core::TuiState;

#[test]
fn test_state_creation() {
    let state = TuiState::new();
    assert_eq!(state.width, 80);
    assert_eq!(state.height, 24);
    assert!(!state.running);
}

#[test]
fn test_state_touch() {
    let mut state = TuiState::new();
    let v1 = state.version;
    state.touch();
    assert_eq!(state.version, v1 + 1);
}

#[test]
fn new_state_has_fixed_defaults() {
    let state = TuiState::new();
    assert_eq!(state.width, 80);
    assert_eq!(state.height, 24);
    assert!(!state.running);
    assert_eq!(state.version, 0);
    assert_eq!(DEFAULT_WIDTH, 80);
    assert_eq!(DEFAULT_HEIGHT, 24);
}

#[test]
fn default_state_equals_new() {
    assert_eq!(TuiState::default(), TuiState::new());
}

#[test]
fn three_touches_reach_version_three() {
    let mut state = TuiState::new();
    state.touch();
    state.touch();
    state.touch();
    assert_eq!(state.version, 3);
    assert_eq!(state.width, 80);
    assert_eq!(state.height, 24);
    assert!(!state.running);
}

#[test]
fn touch_wraps_at_maximum() {
    let mut state = TuiState::new();
    state.version = u64::MAX;
    state.touch();
    assert_eq!(state.version, 0);
}

#[test]
fn touches_from_near_maximum_count_modulo() {
    let mut state = TuiState::new();
    state.width = 132;
    state.height = 50;
    state.running = true;
    state.version = u64::MAX - 2;
    for _ in 0..7 {
        state.touch();
    }
    assert_eq!(state.version, 4);
    assert_eq!(state.width, 132);
    assert_eq!(state.height, 50);
    assert!(state.running);
}

#[test]
fn touch_changes_only_version() {
    let mut state = TuiState { width: 10, height: 5, running: true, version: 41 };
    state.touch();
    assert_eq!(state, TuiState { width: 10, height: 5, running: true, version: 42 });
}
