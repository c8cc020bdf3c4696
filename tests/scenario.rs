use ios_ui_automation::scenario::{
    Action, Phase, Report, Scenario, ASSISTANT_UTTERANCE, SETTLE_DELAY_MS, TYPED_TEXT,
};

fn run(reports: &[Report]) -> (Vec<Action>, Scenario) {
    let mut s = Scenario::new();
    let mut actions = Vec::new();
    for r in reports {
        actions.push(s.next_action());
        s.advance(*r);
    }
    (actions, s)
}

#[test]
fn successful_run_follows_the_script() {
    let reports = [
        Report::Done,
        Report::TextFields(1),
        Report::Done,
        Report::Done,
        Report::ScreenshotWritten(true),
        Report::Done,
        Report::Done,
        Report::Done,
        Report::Done,
    ];
    let (actions, s) = run(&reports);
    assert_eq!(
        actions,
        vec![
            Action::Launch,
            Action::QueryTextFields,
            Action::Tap,
            Action::TypeText,
            Action::SaveScreenshot,
            Action::ActivateAssistant,
            Action::Wait(500),
            Action::PressHome,
            Action::PressHome,
        ]
    );
    assert_eq!(s.phase, Phase::Finished);
    assert!(s.is_over());
    assert_eq!(s.next_action(), Action::Finish);
}

#[test]
fn tap_precedes_typing_and_screenshot_precedes_assistant() {
    let reports = [
        Report::Done,
        Report::TextFields(3),
        Report::Done,
        Report::Done,
        Report::ScreenshotWritten(true),
        Report::Done,
        Report::Done,
        Report::Done,
        Report::Done,
    ];
    let (actions, _) = run(&reports);
    let pos = |a: Action| actions.iter().position(|x| *x == a).unwrap();
    assert!(pos(Action::Tap) < pos(Action::TypeText));
    assert!(pos(Action::TypeText) < pos(Action::SaveScreenshot));
    assert!(pos(Action::SaveScreenshot) < pos(Action::ActivateAssistant));
    let wait = pos(Action::Wait(SETTLE_DELAY_MS));
    let presses: Vec<usize> = actions
        .iter()
        .enumerate()
        .filter(|(_, a)| **a == Action::PressHome)
        .map(|(i, _)| i)
        .collect();
    assert_eq!(presses.len(), 2);
    assert!(presses.iter().all(|i| *i > wait));
}

#[test]
fn no_text_field_stops_the_run() {
    let reports = [
        Report::Done,
        Report::TextFields(0),
        Report::Done,
        Report::Done,
        Report::ScreenshotWritten(true),
    ];
    let (actions, s) = run(&reports);
    assert_eq!(
        actions,
        vec![
            Action::Launch,
            Action::QueryTextFields,
            Action::Abort,
            Action::Abort,
            Action::Abort,
        ]
    );
    assert_eq!(s.phase, Phase::Aborted);
    assert!(s.is_over());
}

#[test]
fn failed_screenshot_write_aborts() {
    let reports = [
        Report::Done,
        Report::TextFields(1),
        Report::Done,
        Report::Done,
        Report::ScreenshotWritten(false),
        Report::Done,
    ];
    let (actions, s) = run(&reports);
    assert_eq!(actions[4], Action::SaveScreenshot);
    assert_eq!(actions[5], Action::Abort);
    assert_eq!(s.phase, Phase::Aborted);
}

#[test]
fn missing_document_directory_aborts() {
    let mut s = Scenario { phase: Phase::Typed };
    assert_eq!(s.next_action(), Action::SaveScreenshot);
    s.advance(Report::NoDocumentDirectory);
    assert_eq!(s.phase, Phase::Aborted);
    assert_eq!(s.next_action(), Action::Abort);
    let reports = [
        Report::Done,
        Report::TextFields(1),
        Report::Done,
        Report::Done,
        Report::NoDocumentDirectory,
        Report::Done,
        Report::Done,
    ];
    let (actions, s) = run(&reports);
    assert_eq!(actions[4], Action::SaveScreenshot);
    assert_eq!(actions[5], Action::Abort);
    assert_eq!(actions[6], Action::Abort);
    assert!(!actions.contains(&Action::ActivateAssistant));
    assert_eq!(s.phase, Phase::Aborted);
}

#[test]
fn unexpected_report_aborts() {
    let mut s = Scenario::new();
    s.advance(Report::TextFields(1));
    assert_eq!(s.phase, Phase::Aborted);
    let mut s = Scenario { phase: Phase::FieldFound };
    s.advance(Report::ScreenshotWritten(true));
    assert_eq!(s.phase, Phase::Aborted);
}

#[test]
fn finished_and_aborted_are_final() {
    let mut s = Scenario { phase: Phase::Finished };
    s.advance(Report::TextFields(0));
    assert_eq!(s.phase, Phase::Finished);
    let mut s = Scenario { phase: Phase::Aborted };
    s.advance(Report::Done);
    assert_eq!(s.phase, Phase::Aborted);
    assert_eq!(s.next_action(), Action::Abort);
    assert!(!Scenario::new().is_over());
}

#[test]
fn script_literals() {
    assert_eq!(TYPED_TEXT, " THIS TEXT IS FROM XCTEST");
    assert_eq!(ASSISTANT_UTTERANCE, "What is the capital of germany?");
    assert_eq!(SETTLE_DELAY_MS, 500);
}
