//! The automation driver's script, as a state machine.
//!
//! The driver asks for the next action, performs it against the UI, and
//! reports what happened. The script is linear and all-or-nothing: any
//! unexpected report, a missing text field or a failed screenshot write stops
//! it for good.

use vstd::prelude::*;

verus! {

/// Text typed into the first text field, after what it already holds.
pub const TYPED_TEXT: &'static str = " THIS TEXT IS FROM XCTEST";

/// Utterance handed to the voice assistant.
pub const ASSISTANT_UTTERANCE: &'static str = "What is the capital of germany?";

/// How long the driver waits for the voice assistant to settle.
pub const SETTLE_DELAY_MS: u64 = 500;

/// How far the script has come: each phase names the last step completed.
#[derive(Clone, Copy, Debug, PartialEq, Eq, Structural)]
pub enum Phase {
    Start,
    Launched,
    FieldFound,
    Tapped,
    Typed,
    Captured,
    AssistantAsked,
    Waited,
    HomeOnce,
    Finished,
    Aborted,
}

/// What the driver is to do next.
#[derive(Clone, Copy, Debug, PartialEq, Eq, Structural)]
pub enum Action {
    /// Launch the application with the launch configuration.
    Launch,
    /// Query the text fields of the application.
    QueryTextFields,
    /// Tap the first text field.
    Tap,
    /// Type `TYPED_TEXT` into the first text field.
    TypeText,
    /// Capture a screenshot and write it to the screenshot path.
    SaveScreenshot,
    /// Activate the voice assistant with `ASSISTANT_UTTERANCE`.
    ActivateAssistant,
    /// Block for the given number of milliseconds.
    Wait(u64),
    /// Press the home button.
    PressHome,
    /// The script is complete.
    Finish,
    /// The script failed; the run must end with a failure.
    Abort,
}

/// What the driver observed when it performed an action.
#[derive(Clone, Copy, Debug, PartialEq, Eq, Structural)]
pub enum Report {
    /// The action completed; it has no result of its own.
    Done,
    /// The text-field query found this many elements.
    TextFields(usize),
    /// The screenshot was written (`true`) or the write failed (`false`).
    ScreenshotWritten(bool),
    /// No document directory exists, so the screenshot could not be written.
    NoDocumentDirectory,
}

/// The action asked for in each phase.
pub open spec fn action_of(p: Phase) -> Action {
    match p {
        Phase::Start => Action::Launch,
        Phase::Launched => Action::QueryTextFields,
        Phase::FieldFound => Action::Tap,
        Phase::Tapped => Action::TypeText,
        Phase::Typed => Action::SaveScreenshot,
        Phase::Captured => Action::ActivateAssistant,
        Phase::AssistantAsked => Action::Wait(SETTLE_DELAY_MS),
        Phase::Waited => Action::PressHome,
        Phase::HomeOnce => Action::PressHome,
        Phase::Finished => Action::Finish,
        Phase::Aborted => Action::Abort,
    }
}

/// The phase after the action of phase `p` was performed with result `r`.
pub open spec fn next_phase(p: Phase, r: Report) -> Phase {
    match (p, r) {
        (Phase::Start, Report::Done) => Phase::Launched,
        (Phase::Launched, Report::TextFields(n)) => if n > 0 {
            Phase::FieldFound
        } else {
            Phase::Aborted
        },
        (Phase::FieldFound, Report::Done) => Phase::Tapped,
        (Phase::Tapped, Report::Done) => Phase::Typed,
        (Phase::Typed, Report::ScreenshotWritten(ok)) => if ok {
            Phase::Captured
        } else {
            Phase::Aborted
        },
        (Phase::Typed, Report::NoDocumentDirectory) => Phase::Aborted,
        (Phase::Captured, Report::Done) => Phase::AssistantAsked,
        (Phase::AssistantAsked, Report::Done) => Phase::Waited,
        (Phase::Waited, Report::Done) => Phase::HomeOnce,
        (Phase::HomeOnce, Report::Done) => Phase::Finished,
        (Phase::Finished, _) => Phase::Finished,
        _ => Phase::Aborted,
    }
}

/// The actions asked for, one per report, when the driver starts in phase
/// `p` and reports `reports` in turn.
pub open spec fn trace(p: Phase, reports: Seq<Report>) -> Seq<Action>
    decreases reports.len(),
{
    if reports.len() == 0 {
        Seq::empty()
    } else {
        seq![action_of(p)] + trace(next_phase(p, reports[0]), reports.drop_first())
    }
}

/// The `k`-th action of a run in which every step succeeds.
pub open spec fn scripted(k: int) -> Action {
    if k <= 0 {
        Action::Launch
    } else if k == 1 {
        Action::QueryTextFields
    } else if k == 2 {
        Action::Tap
    } else if k == 3 {
        Action::TypeText
    } else if k == 4 {
        Action::SaveScreenshot
    } else if k == 5 {
        Action::ActivateAssistant
    } else if k == 6 {
        Action::Wait(SETTLE_DELAY_MS)
    } else if k == 7 || k == 8 {
        Action::PressHome
    } else {
        Action::Finish
    }
}

/// How many steps of the script a phase has completed.
pub open spec fn steps_done(p: Phase) -> int {
    match p {
        Phase::Start => 0,
        Phase::Launched => 1,
        Phase::FieldFound => 2,
        Phase::Tapped => 3,
        Phase::Typed => 4,
        Phase::Captured => 5,
        Phase::AssistantAsked => 6,
        Phase::Waited => 7,
        Phase::HomeOnce => 8,
        Phase::Finished => 9,
        Phase::Aborted => 9,
    }
}

/// The driver's progress through its script.
pub struct Scenario {
    pub phase: Phase,
}

impl Scenario {
    /// A scenario that has not started.
    pub fn new() -> (r: Scenario)
        ensures
            r.phase == Phase::Start,
    {
        Scenario { phase: Phase::Start }
    }

    /// The action the driver is to perform now.
    pub fn next_action(&self) -> (r: Action)
        ensures
            r == action_of(self.phase),
    {
        match self.phase {
            Phase::Start => Action::Launch,
            Phase::Launched => Action::QueryTextFields,
            Phase::FieldFound => Action::Tap,
            Phase::Tapped => Action::TypeText,
            Phase::Typed => Action::SaveScreenshot,
            Phase::Captured => Action::ActivateAssistant,
            Phase::AssistantAsked => Action::Wait(SETTLE_DELAY_MS),
            Phase::Waited => Action::PressHome,
            Phase::HomeOnce => Action::PressHome,
            Phase::Finished => Action::Finish,
            Phase::Aborted => Action::Abort,
        }
    }

    /// Records the result of the action just performed.
    pub fn advance(&mut self, report: Report)
        ensures
            final(self).phase == next_phase(old(self).phase, report),
    {
        let next = match (self.phase, report) {
            (Phase::Start, Report::Done) => Phase::Launched,
            (Phase::Launched, Report::TextFields(n)) => if n > 0 {
                Phase::FieldFound
            } else {
                Phase::Aborted
            },
            (Phase::FieldFound, Report::Done) => Phase::Tapped,
            (Phase::Tapped, Report::Done) => Phase::Typed,
            (Phase::Typed, Report::ScreenshotWritten(ok)) => if ok {
                Phase::Captured
            } else {
                Phase::Aborted
            },
            (Phase::Typed, Report::NoDocumentDirectory) => Phase::Aborted,
            (Phase::Captured, Report::Done) => Phase::AssistantAsked,
            (Phase::AssistantAsked, Report::Done) => Phase::Waited,
            (Phase::Waited, Report::Done) => Phase::HomeOnce,
            (Phase::HomeOnce, Report::Done) => Phase::Finished,
            (Phase::Finished, _) => Phase::Finished,
            _ => Phase::Aborted,
        };
        self.phase = next;
    }

    /// Whether the script has ended, completed or failed.
    pub fn is_over(&self) -> (r: bool)
        ensures
            r == (self.phase == Phase::Finished || self.phase == Phase::Aborted),
    {
        match self.phase {
            Phase::Finished | Phase::Aborted => true,
            _ => false,
        }
    }
}

proof fn lemma_trace_len(p: Phase, reports: Seq<Report>)
    ensures
        trace(p, reports).len() == reports.len(),
    decreases reports.len(),
{
    if reports.len() > 0 {
        lemma_trace_len(next_phase(p, reports[0]), reports.drop_first());
    }
}

/// Once the script has failed, every later action is `Abort`.
pub proof fn lemma_abort_is_final(reports: Seq<Report>)
    ensures
        forall|j: int|
            0 <= j < reports.len() ==> #[trigger] trace(Phase::Aborted, reports)[j]
                == Action::Abort,
    decreases reports.len(),
{
    lemma_trace_len(Phase::Aborted, reports);
    if reports.len() > 0 {
        let rest = reports.drop_first();
        lemma_abort_is_final(rest);
        lemma_trace_len(Phase::Aborted, rest);
        assert forall|j: int| 0 <= j < reports.len() implies #[trigger] trace(
            Phase::Aborted,
            reports,
        )[j] == Action::Abort by {
            if j > 0 {
                assert(trace(Phase::Aborted, reports)[j] == trace(Phase::Aborted, rest)[j - 1]);
            }
        }
    }
}

/// From any phase but `Aborted`, the actions follow the script position by
/// position until an `Abort`, and every action after an `Abort` is `Abort`.
proof fn lemma_follows_script(p: Phase, reports: Seq<Report>)
    requires
        p != Phase::Aborted,
    ensures
        forall|j: int|
            0 <= j < reports.len() ==> #[trigger] trace(p, reports)[j] == Action::Abort
                || trace(p, reports)[j] == scripted(steps_done(p) + j),
        forall|i: int, j: int|
            0 <= i < j < reports.len() && #[trigger] trace(p, reports)[i] == Action::Abort
                ==> #[trigger] trace(p, reports)[j] == Action::Abort,
    decreases reports.len(),
{
    lemma_trace_len(p, reports);
    if reports.len() > 0 {
        let t = trace(p, reports);
        let q = next_phase(p, reports[0]);
        let rest = reports.drop_first();
        let u = trace(q, rest);
        lemma_trace_len(q, rest);
        assert(t == seq![action_of(p)] + u);
        assert(t[0] == scripted(steps_done(p)));
        assert(forall|j: int| 0 < j < reports.len() ==> t[j] == u[j - 1]);
        if q == Phase::Aborted {
            lemma_abort_is_final(rest);
            assert forall|j: int| 0 <= j < reports.len() implies #[trigger] t[j] == Action::Abort
                || t[j] == scripted(steps_done(p) + j) by {
                if j > 0 {
                    assert(u[j - 1] == Action::Abort);
                }
            }
            assert forall|i: int, j: int|
                0 <= i < j < reports.len() && #[trigger] t[i] == Action::Abort implies #[trigger] t[j]
                == Action::Abort by {
                assert(u[j - 1] == Action::Abort);
            }
        } else {
            lemma_follows_script(q, rest);
            assert forall|j: int| 0 <= j < reports.len() implies #[trigger] t[j] == Action::Abort
                || t[j] == scripted(steps_done(p) + j) by {
                if j > 0 {
                    assert(u[j - 1] == Action::Abort || u[j - 1] == scripted(
                        steps_done(q) + (j - 1),
                    ));
                    assert(scripted(steps_done(q) + (j - 1)) == scripted(steps_done(p) + j));
                }
            }
            assert forall|i: int, j: int|
                0 <= i < j < reports.len() && #[trigger] t[i] == Action::Abort implies #[trigger] t[j]
                == Action::Abort by {
                assert(i > 0);
                assert(u[i - 1] == Action::Abort);
            }
        }
    }
}

/// In every run, whatever the driver reports: typing comes right after the
/// tap on the text field; the screenshot right after typing; the voice
/// assistant right after the screenshot; and both home-button presses come
/// after the settling delay, the first right after it.
pub proof fn lemma_scenario_order(reports: Seq<Report>)
    ensures
        ({
            let t = trace(Phase::Start, reports);
            &&& t.len() == reports.len()
            &&& forall|j: int|
                0 <= j < t.len() && #[trigger] t[j] == Action::TypeText ==> j >= 1 && t[j - 1]
                    == Action::Tap
            &&& forall|j: int|
                0 <= j < t.len() && #[trigger] t[j] == Action::SaveScreenshot ==> j >= 1 && t[j
                    - 1] == Action::TypeText
            &&& forall|j: int|
                0 <= j < t.len() && #[trigger] t[j] == Action::ActivateAssistant ==> j >= 1
                    && t[j - 1] == Action::SaveScreenshot
            &&& forall|j: int|
                0 <= j < t.len() && #[trigger] t[j] == Action::PressHome ==> (j >= 1 && t[j - 1]
                    == Action::Wait(SETTLE_DELAY_MS)) || (j >= 2 && t[j - 1] == Action::PressHome
                    && t[j - 2] == Action::Wait(SETTLE_DELAY_MS))
        }),
{
    let t = trace(Phase::Start, reports);
    lemma_trace_len(Phase::Start, reports);
    lemma_follows_script(Phase::Start, reports);
    assert forall|j: int| 0 <= j < t.len() && #[trigger] t[j] != Action::Abort implies t[j]
        == scripted(j) && forall|i: int| 0 <= i < j ==> t[i] == scripted(i) by {
        assert(t[j] == Action::Abort || t[j] == scripted(0 + j));
        assert forall|i: int| 0 <= i < j implies t[i] == scripted(i) by {
            if t[i] == Action::Abort {
                assert(t[j] == Action::Abort);
            }
            assert(t[i] == Action::Abort || t[i] == scripted(0 + i));
        }
    }
}

/// When the text-field query finds no element, the run stops there: every
/// later action is `Abort`, and no tap, typing or screenshot is ever asked
/// for.
pub proof fn lemma_no_text_field_stops(reports: Seq<Report>)
    requires
        reports.len() >= 2,
        reports[1] == Report::TextFields(0),
    ensures
        ({
            let t = trace(Phase::Start, reports);
            &&& t.len() == reports.len()
            &&& forall|j: int| 2 <= j < t.len() ==> #[trigger] t[j] == Action::Abort
            &&& forall|j: int|
                0 <= j < t.len() ==> #[trigger] t[j] != Action::Tap && t[j] != Action::TypeText
                    && t[j] != Action::SaveScreenshot
        }),
{
    let t = trace(Phase::Start, reports);
    lemma_trace_len(Phase::Start, reports);
    let q = next_phase(Phase::Start, reports[0]);
    let rest = reports.drop_first();
    lemma_trace_len(q, rest);
    let rest2 = rest.drop_first();
    let q2 = next_phase(q, rest[0]);
    assert(q2 == Phase::Aborted);
    lemma_abort_is_final(rest2);
    lemma_trace_len(q2, rest2);
    assert(t == seq![action_of(Phase::Start)] + trace(q, rest));
    assert(trace(q, rest) == seq![action_of(q)] + trace(q2, rest2));
    assert(forall|j: int| 2 <= j < t.len() ==> t[j] == trace(q2, rest2)[j - 2]);
}

/// When the screenshot cannot be saved, because its write failed or no
/// document directory exists, the run stops there: every later action is
/// `Abort`, and the voice assistant is never asked for.
pub proof fn lemma_screenshot_failure_stops(reports: Seq<Report>)
    requires
        reports.len() >= 5,
        reports[4] == Report::ScreenshotWritten(false) || reports[4]
            == Report::NoDocumentDirectory,
    ensures
        ({
            let t = trace(Phase::Start, reports);
            &&& t.len() == reports.len()
            &&& forall|j: int| 5 <= j < t.len() ==> #[trigger] t[j] == Action::Abort
            &&& forall|j: int| 0 <= j < t.len() ==> #[trigger] t[j] != Action::ActivateAssistant
        }),
{
    let t = trace(Phase::Start, reports);
    lemma_trace_len(Phase::Start, reports);
    lemma_follows_script(Phase::Start, reports);
    let r1 = reports.drop_first();
    let r2 = r1.drop_first();
    let r3 = r2.drop_first();
    let r4 = r3.drop_first();
    let r5 = r4.drop_first();
    let q1 = next_phase(Phase::Start, reports[0]);
    let q2 = next_phase(q1, r1[0]);
    let q3 = next_phase(q2, r2[0]);
    let q4 = next_phase(q3, r3[0]);
    let q5 = next_phase(q4, r4[0]);
    assert(q5 == Phase::Aborted);
    lemma_abort_is_final(r5);
    lemma_trace_len(q5, r5);
    assert(t == seq![action_of(Phase::Start)] + trace(q1, r1));
    assert(trace(q1, r1) == seq![action_of(q1)] + trace(q2, r2));
    assert(trace(q2, r2) == seq![action_of(q2)] + trace(q3, r3));
    assert(trace(q3, r3) == seq![action_of(q3)] + trace(q4, r4));
    assert(trace(q4, r4) == seq![action_of(q4)] + trace(q5, r5));
    assert(forall|j: int| 5 <= j < t.len() ==> t[j] == trace(q5, r5)[j - 5]);
    assert forall|j: int| 0 <= j < t.len() implies #[trigger] t[j] != Action::ActivateAssistant by {
        assert(t[j] == Action::Abort || t[j] == scripted(0 + j));
    }
}

} // verus!
