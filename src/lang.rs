//! Exit status of the application entry point.

use vstd::prelude::*;

verus! {

/// What the application's `main` returns, reported as an exit code.
pub trait Termination {
    fn report(self) -> i32;
}

impl Termination for () {
    fn report(self) -> (r: i32)
        ensures
            r == 0,
    {
        0
    }
}

} // verus!
