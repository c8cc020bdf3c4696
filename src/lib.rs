//! Decision logic for an iOS UI-automation example: the launch
//! environment handed to the application under test, the fixed interaction
//! script the automation driver walks through, the screenshot location, and
//! the coverage-flush policy of the application.
//!
//! Everything that touches the UI frameworks, the process environment or the
//! file system lives outside this library; it hands plain values in and
//! performs the actions this library decides on.

use vstd::prelude::*;

pub mod application;
pub mod launch;
pub mod scenario;
pub mod screenshot;

verus! {

/// Adds two sizes.
pub fn add(left: usize, right: usize) -> (r: usize)
    requires
        left + right <= usize::MAX,
    ensures
        r == left + right,
{
    left + right
}

} // verus!
