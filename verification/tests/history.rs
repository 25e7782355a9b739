use grainforge::history::Command;
use grainforge::history::HistoryManager;
use grainforge::parameter::Parameter;
use grainforge::parameter::ParameterValue;
use grainforge::parameter::set_parameter;

fn amount_param(value: i64) -> Parameter {
    Parameter::new_float("grain_amount", "Grain Amount", "strength", value, 0, 1000)
}

fn set_cmd(old_value: i64, new_value: i64) -> Command {
    Command::SetParameter {
        param_id: "grain_amount".to_string(),
        old_value: ParameterValue::Float(old_value),
        new_value: ParameterValue::Float(new_value),
    }
}

fn value_of(params: &[Parameter]) -> i64 {
    match params[0].value {
        ParameterValue::Float(v) => v,
        _ => panic!("expected a fractional value"),
    }
}

#[test]
fn undo_restores_and_redo_reapplies() {
    let mut history = HistoryManager::default();
    let mut params = vec![amount_param(500)];

    // The edit itself: apply the new value, record the command.
    set_parameter(&mut params, &"grain_amount".to_string(), ParameterValue::Float(800));
    history.push(set_cmd(500, 800));
    assert_eq!(value_of(&params), 800);

    // Undo restores the pre-edit value and makes redo available.
    assert_eq!(history.undo(&mut params), Some(()));
    assert_eq!(value_of(&params), 500);
    assert_eq!(history.redo_len(), 1);

    // Redo restores the post-edit value.
    assert_eq!(history.redo(&mut params), Some(()));
    assert_eq!(value_of(&params), 800);
    assert_eq!(history.undo_len(), 1);
    assert_eq!(history.redo_len(), 0);
}

#[test]
fn undo_on_empty_history_is_a_no_op() {
    let mut history = HistoryManager::default();
    let mut params = vec![amount_param(500)];
    assert_eq!(history.undo(&mut params), None);
    assert_eq!(value_of(&params), 500);
    assert_eq!(history.undo_len(), 0);
    assert_eq!(history.redo_len(), 0);
}

#[test]
fn redo_on_empty_history_is_a_no_op() {
    let mut history = HistoryManager::default();
    let mut params = vec![amount_param(500)];
    assert_eq!(history.redo(&mut params), None);
    assert_eq!(value_of(&params), 500);
}

#[test]
fn push_after_undo_clears_pending_redo() {
    let mut history = HistoryManager::default();
    let mut params = vec![amount_param(0)];

    history.push(set_cmd(0, 100));
    assert_eq!(history.undo(&mut params), Some(()));
    assert_eq!(history.redo_len(), 1);

    // A new edit discards the redo of the reversed command.
    history.push(set_cmd(0, 200));
    assert_eq!(history.redo_len(), 0);
    assert_eq!(history.redo(&mut params), None);
}

#[test]
fn undo_of_missing_parameter_is_silent() {
    let mut history = HistoryManager::default();
    let mut params = vec![amount_param(500)];
    history.push(Command::SetParameter {
        param_id: "no_such_parameter".to_string(),
        old_value: ParameterValue::Float(1),
        new_value: ParameterValue::Float(2),
    });
    assert_eq!(history.undo(&mut params), Some(()));
    assert_eq!(value_of(&params), 500);
}

#[test]
fn depth_bound_keeps_the_newest_fifty() {
    let mut history = HistoryManager::default();
    let mut params = vec![amount_param(51)];

    // 51 distinct commands; the first must be evicted, leaving 50.
    for i in 1..=51i64 {
        history.push(set_cmd(i - 1, i));
    }
    assert_eq!(history.undo_len(), 50);

    // The 50 newest undo in reverse order; the oldest command (old value 0)
    // is gone, so the parameter ends at command 2's old value, 1.
    for _ in 0..50 {
        assert_eq!(history.undo(&mut params), Some(()));
    }
    assert_eq!(value_of(&params), 1);
    assert_eq!(history.undo(&mut params), None);
    assert_eq!(value_of(&params), 1);
}

#[test]
fn parameter_reset_restores_default() {
    let mut p = amount_param(500);
    p.value = ParameterValue::Float(900);
    p.reset();
    assert_eq!(p.value, ParameterValue::Float(500));
}

#[test]
fn set_parameter_updates_first_match_only() {
    let mut params = vec![amount_param(1), amount_param(2)];
    set_parameter(&mut params, &"grain_amount".to_string(), ParameterValue::Float(7));
    assert_eq!(params[0].value, ParameterValue::Float(7));
    assert_eq!(params[1].value, ParameterValue::Float(2));
}

#[test]
fn reset_parameter_by_id_restores_default() {
    let mut params = vec![amount_param(500)];
    set_parameter(&mut params, &"grain_amount".to_string(), ParameterValue::Float(900));
    assert_eq!(value_of(&params), 900);
    grainforge::parameter::reset_parameter(&mut params, &"grain_amount".to_string());
    assert_eq!(value_of(&params), 500);
    grainforge::parameter::reset_parameter(&mut params, &"missing".to_string());
    assert_eq!(value_of(&params), 500);
}

#[test]
fn set_parameter_with_unknown_id_is_a_no_op() {
    let mut params = vec![amount_param(1)];
    set_parameter(&mut params, &"missing".to_string(), ParameterValue::Float(7));
    assert_eq!(params[0].value, ParameterValue::Float(1));
}
