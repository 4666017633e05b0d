use taskbar_progress::handle::TaskbarProgress;
use taskbar_progress::state::ProgressState;

#[test]
fn set_val_new() {
    let mut tbp = TaskbarProgress::new();
    assert_eq!(tbp.get_state(), ProgressState::NoProgress, "The initial state should be NOPROGRESS");
    tbp.show();
    let a: u64 = 13;
    let b: u64 = 12345;
    tbp.set_progress_value(a, b);
    assert_eq!(tbp.get_value(), (a, b), "Testing set_progress_value with {}/{}", a, b);
    assert_eq!(tbp.get_state(), ProgressState::Normal, "Setting value should change the state from NOPROGRESS to NORMAL");
}

#[test]
fn set_val_indeterminate() {
    let mut tbp = TaskbarProgress::new();
    assert_eq!(tbp.get_state(), ProgressState::NoProgress, "The initial state should be NOPROGRESS");
    tbp.show();
    tbp.set_progress_state(ProgressState::Indeterminate);
    assert_eq!(tbp.get_state(), ProgressState::Indeterminate, "Testing state change");
    let a: u64 = 13;
    let b: u64 = 12345;
    tbp.set_progress_value(a, b);
    assert_eq!(tbp.get_value(), (a, b), "Testing set_progress_value with {}/{}", a, b);
    assert_eq!(tbp.get_state(), ProgressState::Normal, "Setting value should change the state from INDETERMINATE to NORMAL");
}

#[test]
fn set_val_pause() {
    let mut tbp = TaskbarProgress::new();
    assert_eq!(tbp.get_state(), ProgressState::NoProgress, "The initial state should be NOPROGRESS");
    tbp.show();
    tbp.set_progress_state(ProgressState::Paused);
    assert_eq!(tbp.get_state(), ProgressState::Paused, "Testing state change");
    let a: u64 = 13;
    let b: u64 = 12345;
    tbp.set_progress_value(a, b);
    assert_eq!(tbp.get_value(), (a, b), "Testing set_progress_value with {}/{}", a, b);
    assert_eq!(tbp.get_state(), ProgressState::Paused, "Setting value should not change the state from PAUSED (or ERROR)");
}

#[test]
fn hide_sets_noprogress() {
    let mut tbp = TaskbarProgress::new();
    assert_eq!(tbp.get_state(), ProgressState::NoProgress, "The initial state should be NOPROGRESS");
    tbp.show();
    tbp.set_progress_state(ProgressState::Indeterminate);
    assert_eq!(tbp.get_state(), ProgressState::Indeterminate, "Testing state change");
    tbp.hide_indicator();
    assert_eq!(tbp.get_state(), ProgressState::NoProgress, "Hiding should set NOPROGRESS");
}

#[test]
fn default_hidden() {
    let tbp = TaskbarProgress::new();
    assert_eq!(tbp.get_state(), ProgressState::NoProgress, "The initial state should be NOPROGRESS");
    assert_eq!(tbp.get_is_active(), false, "TaskbarProgress should be initialised as inactive");
}

#[test]
fn hide_disallows_state_changes() {
    let mut tbp = TaskbarProgress::new();
    assert_eq!(tbp.get_state(), ProgressState::NoProgress, "The initial state should be NOPROGRESS");
    tbp.set_progress_state(ProgressState::Indeterminate);
    assert_eq!(tbp.get_state(), ProgressState::NoProgress, "Changing state should not be posible when hidden/inactive");
}

#[test]
fn hide_disallows_value_changes() {
    let mut tbp = TaskbarProgress::new();
    assert_eq!(tbp.get_state(), ProgressState::NoProgress, "The initial state should be NOPROGRESS");
    let init_val = tbp.get_value();
    tbp.set_progress_value(5, 15);
    assert_eq!(tbp.get_value(), init_val, "Changing value should not be posible when hidden/inactive");
    assert_eq!(tbp.get_state(), ProgressState::NoProgress, "Changing value when hidden/inactive should not change the state");
}
