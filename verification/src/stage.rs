pub mod compare_files;
pub mod compile;
pub mod import_files;
pub mod run;
pub mod valgrind;

use vstd::prelude::*;

use crate::output::Output;
use crate::points::PointQuantity;

verus! {

/// What a stage tells the test runner: keep going, deducting the given
/// points, or stop the test because the submission cannot proceed.
#[derive(Debug, Clone, Copy, PartialEq, Eq, Structural)]
pub enum StageStatus {
    Continue { points_lost: PointQuantity },
    UnrecoverableFailure,
}

/// The result of one stage: its status and, optionally, a fragment of
/// feedback to append to the test's output.
#[derive(Debug)]
pub struct StageResult {
    pub status: StageStatus,
    pub output: Option<Output>,
}

impl StageResult {
    pub fn new(status: StageStatus, output: Option<Output>) -> (r: Self)
        ensures
            r.status == status,
            r.output == output,
    {
        Self { status, output }
    }

    /// A result that stops the test, with no output of its own.
    pub fn new_unrecoverable_failure() -> (r: Self)
        ensures
            r.status is UnrecoverableFailure,
            r.output is None,
    {
        Self::new(StageStatus::UnrecoverableFailure, None)
    }

    /// A result that lets the test go on, deducting the given points.
    pub fn new_continue(points_lost: PointQuantity) -> (r: Self)
        ensures
            r.status matches StageStatus::Continue { points_lost: p } && p == points_lost,
            r.output is None,
    {
        Self::new(StageStatus::Continue { points_lost }, None)
    }

    /// The result with the given output fragment attached.
    pub fn with_output(self, output: Output) -> (r: Self)
        ensures
            r.status == self.status,
            r.output == Some(output),
    {
        Self { output: Some(output), ..self }
    }
}

} // verus!
