use grainforge::app_state::AppState;
use grainforge::app_state::EditMode;
use grainforge::parameter::ParameterValue;

#[test]
fn new_session_registers_the_preview_parameters() {
    let state = AppState::new_session();
    assert_eq!(state.active_mode, EditMode::Simple);
    assert_eq!(state.parameters.len(), 2);
    assert_eq!(state.parameters[0].id, "grain_amount");
    assert_eq!(state.parameters[0].value, ParameterValue::Float(500));
    assert_eq!(state.parameters[1].id, "grain_size");
    assert_eq!(state.parameters[1].value, ParameterValue::Float(1000));
    assert_eq!(state.grain_amount, 500);
    assert_eq!(state.grain_size, 1000);
    assert_eq!(state.preview_seed, 0);
    assert_eq!(state.history.undo_len(), 0);
    assert_eq!(state.history.redo_len(), 0);
}

#[test]
fn default_session_matches_new_session() {
    let state = AppState::default();
    assert_eq!(state.active_mode, EditMode::Simple);
    assert_eq!(state.parameters.len(), 2);
}
