//! A text console for a memory-mapped character grid, with the small test
//! harness that runs checks and reports their outcome to the emulator.
use vstd::prelude::*;

pub mod io;

pub use io::ExitCode;

verus! {

/// A check that the test harness can run.
pub trait Testable {
    fn run(&self);
}

/// Runs every check in order and returns the status to report: a check that
/// fails does not come back, so reaching the end means success.
pub fn test_runner<T: Testable + ?Sized>(tests: &[&T]) -> (r: ExitCode)
    ensures
        r == ExitCode::Success,
{
    let mut i: usize = 0;
    while i < tests.len()
        invariant
            i <= tests@.len(),
        decreases tests@.len() - i,
    {
        tests[i].run();
        i += 1;
    }
    ExitCode::Success
}

} // verus!
