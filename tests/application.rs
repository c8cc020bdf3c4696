use ios_ui_automation::application::{
    check_flush, coverage_observer, FlushFailed, ObserverState, DEFAULT_TEXT,
};

#[test]
fn observer_armed_only_with_profile_path() {
    assert_eq!(coverage_observer(true), ObserverState::Armed);
    assert_eq!(coverage_observer(false), ObserverState::Unarmed);
}

#[test]
fn zero_flush_status_is_success() {
    assert_eq!(check_flush(0), Ok(()));
}

#[test]
fn non_zero_flush_status_is_failure() {
    assert_eq!(check_flush(-1), Err(FlushFailed { code: -1 }));
    assert_eq!(check_flush(1), Err(FlushFailed { code: 1 }));
    assert_eq!(check_flush(i32::MIN), Err(FlushFailed { code: i32::MIN }));
}

#[test]
fn default_text() {
    assert_eq!(DEFAULT_TEXT, "THIS IS THE DEFAULT TEXT");
}
