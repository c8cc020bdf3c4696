//! The application under test: its fixed text, and the policy for flushing
//! coverage data when it moves to the background.

use vstd::prelude::*;

verus! {

/// Text the application's single text field starts with.
pub const DEFAULT_TEXT: &'static str = "THIS IS THE DEFAULT TEXT";

/// Whether the application watches for the "entered background" event.
#[derive(Clone, Copy, Debug, PartialEq, Eq, Structural)]
pub enum ObserverState {
    Unarmed,
    Armed,
}

/// The coverage flush reported a non-zero status.
#[derive(Clone, Copy, Debug, PartialEq, Eq, Structural)]
pub struct FlushFailed {
    pub code: i32,
}

/// The observer is armed exactly when a coverage profile path is
/// configured for the application.
pub fn coverage_observer(profile_file_set: bool) -> (r: ObserverState)
    ensures
        r == (if profile_file_set {
            ObserverState::Armed
        } else {
            ObserverState::Unarmed
        }),
{
    if profile_file_set {
        ObserverState::Armed
    } else {
        ObserverState::Unarmed
    }
}

/// Judges the status returned by the coverage flush: zero is success, any
/// other value a failure that carries the status.
pub fn check_flush(code: i32) -> (r: Result<(), FlushFailed>)
    ensures
        r is Ok <==> code == 0,
        r is Err ==> r->Err_0 == (FlushFailed { code }),
{
    if code == 0 {
        Ok(())
    } else {
        Err(FlushFailed { code })
    }
}

} // verus!
