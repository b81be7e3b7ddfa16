use vstd::prelude::*;

use crate::output::{Output, Section};
use crate::points::{PointQuantity, Points};
use crate::score::Score;
use crate::stage::{StageResult, StageStatus};

verus! {

/// Whether a finished test passed, with its score either way.
#[derive(Debug, Clone, Copy, PartialEq, Eq, Structural)]
pub enum TestStatus {
    Pass(Score),
    Fail(Score),
}

impl TestStatus {
    pub open spec fn spec_score(&self) -> Score {
        match *self {
            TestStatus::Pass(s) => s,
            TestStatus::Fail(s) => s,
        }
    }

    /// The score, whether passed or failed.
    pub fn score(&self) -> (r: Score)
        ensures
            r == self.spec_score(),
    {
        match self {
            TestStatus::Pass(s) => *s,
            TestStatus::Fail(s) => *s,
        }
    }

    /// The points the test was worth.
    pub fn possible_points(&self) -> (r: Points)
        ensures
            r@ == self.spec_score()@.possible,
            self.spec_score().wf() ==> r.wf(),
    {
        self.score().possible()
    }
}

/// What one test produced: whether it passed, its score, and the feedback
/// document its stages assembled.
#[derive(Debug)]
pub struct TestResult {
    pub status: TestStatus,
    pub output: Output,
}

/// Deducting `b` from `a`, stopping at zero.
pub open spec fn ssub(a: nat, b: nat) -> nat {
    if b <= a {
        (a - b) as nat
    } else {
        0
    }
}

/// The received points and failure flag after one stage status is folded
/// in: the full worth or an unrecoverable failure zeroes the score and
/// fails the test; a partial deduction above zero subtracts and fails; a
/// deduction of zero changes nothing.
pub open spec fn apply_status(recv: nat, failed: bool, s: StageStatus) -> (nat, bool) {
    match s {
        StageStatus::Continue { points_lost } => match points_lost@ {
            None => (0, true),
            Some(p) => if p > 0 {
                (ssub(recv, p), true)
            } else {
                (recv, failed)
            },
        },
        StageStatus::UnrecoverableFailure => (0, true),
    }
}

/// The score state after a pipeline of stage statuses runs, first to
/// last, stopping after the first unrecoverable failure.
pub open spec fn run_pipeline(recv: nat, failed: bool, rs: Seq<StageStatus>) -> (nat, bool)
    decreases rs.len(),
{
    if rs.len() == 0 {
        (recv, failed)
    } else {
        let (r1, f1) = apply_status(recv, failed, rs[0]);
        if rs[0] is UnrecoverableFailure {
            (r1, f1)
        } else {
            run_pipeline(r1, f1, rs.subrange(1, rs.len() as int))
        }
    }
}

/// The sections that a pipeline of stage results appends, in order,
/// stopping after the first unrecoverable failure.
pub open spec fn pipeline_outputs(rs: Seq<StageResult>) -> Seq<Section>
    decreases rs.len(),
{
    if rs.len() == 0 {
        Seq::empty()
    } else {
        let head = match rs[0].output {
            Some(o) => o.sections@,
            None => Seq::<Section>::empty(),
        };
        if rs[0].status is UnrecoverableFailure {
            head
        } else {
            head + pipeline_outputs(rs.subrange(1, rs.len() as int))
        }
    }
}

impl TestResult {
    /// The status a test starts from: a full-points pass with no output.
    pub fn new(max_points: Points) -> (r: Self)
        ensures
            r.status matches TestStatus::Pass(s) && s@.received == max_points@ && s@.possible
                == max_points@,
            r.output.sections@ =~= Seq::<Section>::empty(),
            max_points.wf() ==> r.status.spec_score().wf(),
    {
        Self { status: TestStatus::Pass(Score::full_points(max_points)), output: Output::new() }
    }

    /// Fails the test outright: no points received, the worth unchanged.
    pub fn lose_full_points(&mut self)
        ensures
            final(self).status matches TestStatus::Fail(s) && s@.received == 0 && s@.possible
                == old(self).status.spec_score()@.possible,
            final(self).output == old(self).output,
            old(self).status.spec_score().wf() ==> final(self).status.spec_score().wf(),
    {
        let max_points = self.status.possible_points();
        self.status = TestStatus::Fail(Score::zero_points(max_points));
    }

    /// Deducts points, stopping at zero; a deduction above zero fails the
    /// test, a deduction of zero leaves its status alone.
    fn subtract_points(&mut self, points: Points)
        ensures
            ({
                let old_score = old(self).status.spec_score()@;
                if points@ > 0 {
                    final(self).status matches TestStatus::Fail(s) && s@.received == ssub(
                        old_score.received,
                        points@,
                    ) && s@.possible == old_score.possible
                } else {
                    final(self).status == old(self).status
                }
            }),
            final(self).output == old(self).output,
            old(self).status.spec_score().wf() && points.wf()
                ==> final(self).status.spec_score().wf(),
    {
        if points.hundredths() != 0 {
            let new_score = self.status.score().remove_points(points);
            self.status = TestStatus::Fail(new_score);
        }
    }

    /// Folds one stage's result into the test: its output fragment is
    /// appended, and its status adjusts the score as `apply_status` says.
    pub fn append_stage_result(&mut self, res: StageResult)
        ensures
            ({
                let old_score = old(self).status.spec_score()@;
                let new_score = final(self).status.spec_score()@;
                let (recv, failed) = apply_status(
                    old_score.received,
                    old(self).status is Fail,
                    res.status,
                );
                &&& new_score.received == recv
                &&& new_score.possible == old_score.possible
                &&& (final(self).status is Fail) == failed
            }),
            final(self).output.sections@ == old(self).output.sections@ + match res.output {
                Some(o) => o.sections@,
                None => Seq::<Section>::empty(),
            },
            old(self).status.spec_score().wf() && stage_points_wf(res.status)
                ==> final(self).status.spec_score().wf(),
    {
        match res.output {
            Some(o) => {
                self.output.append(o);
            },
            None => {
                proof {
                    assert(self.output.sections@ =~= self.output.sections@
                        + Seq::<Section>::empty());
                }
            },
        }
        match res.status {
            StageStatus::Continue { points_lost } => match points_lost {
                PointQuantity::FullPoints => self.lose_full_points(),
                PointQuantity::Partial(points) => self.subtract_points(points),
            },
            StageStatus::UnrecoverableFailure => self.lose_full_points(),
        }
    }
}

/// Whether the points carried by a stage status are quarter-point values.
pub open spec fn stage_points_wf(s: StageStatus) -> bool {
    match s {
        StageStatus::Continue { points_lost } => points_lost.wf(),
        StageStatus::UnrecoverableFailure => true,
    }
}

/// The statuses of a sequence of stage results.
pub open spec fn result_statuses(rs: Seq<StageResult>) -> Seq<StageStatus> {
    rs.map_values(|r: StageResult| r.status)
}

/// Runs a test's stage pipeline over results already produced, in order:
/// each result's output is appended and its deduction applied, and the
/// first unrecoverable failure stops the pipeline. The test starts from a
/// full-points pass and fails exactly when some stage failed it.
pub fn fold_stage_results(max_points: Points, results: Vec<StageResult>) -> (r: TestResult)
    ensures
        ({
            let (recv, failed) = run_pipeline(max_points@, false, result_statuses(results@));
            &&& r.status.spec_score()@.possible == max_points@
            &&& r.status.spec_score()@.received == recv
            &&& (r.status is Fail) == failed
        }),
        r.output.sections@ == pipeline_outputs(results@),
        max_points.wf() && (forall|j: int|
            0 <= j < results@.len() ==> stage_points_wf(#[trigger] results@[j].status))
            ==> r.status.spec_score().wf(),
{
    let mut result = TestResult::new(max_points);
    let mut stages = results;
    let ghost orig = stages@;
    let ghost sts = result_statuses(orig);
    let n = stages.len();
    let mut i: usize = 0;
    let mut stopped = false;
    proof {
        assert(sts.subrange(0, n as int) =~= sts);
        assert(orig.subrange(0, n as int) =~= orig);
        assert(result.output.sections@ + pipeline_outputs(orig) =~= pipeline_outputs(orig));
    }
    while i < n && !stopped
        invariant
            n == orig.len(),
            sts == result_statuses(orig),
            0 <= i <= n,
            stages@ == orig.subrange(i as int, n as int),
            !stopped ==> forall|j: int| 0 <= j < i ==> !(#[trigger] sts[j] is UnrecoverableFailure),
            result.status.spec_score()@.possible == max_points@,
            !stopped ==> run_pipeline(max_points@, false, sts) == run_pipeline(
                result.status.spec_score()@.received,
                result.status is Fail,
                sts.subrange(i as int, n as int),
            ),
            !stopped ==> pipeline_outputs(orig) == result.output.sections@ + pipeline_outputs(
                orig.subrange(i as int, n as int),
            ),
            stopped ==> run_pipeline(max_points@, false, sts) == (
                result.status.spec_score()@.received,
                result.status is Fail,
            ),
            stopped ==> pipeline_outputs(orig) == result.output.sections@,
            max_points.wf() && (forall|j: int|
                0 <= j < orig.len() ==> stage_points_wf(#[trigger] orig[j].status))
                ==> result.status.spec_score().wf(),
        decreases n - i,
    {
        let ghost rest = sts.subrange(i as int, n as int);
        let ghost orest = orig.subrange(i as int, n as int);
        let res = stages.remove(0);
        proof {
            assert(res == orig[i as int]);
            assert(stages@ =~= orig.subrange(i + 1, n as int));
            assert(rest[0] == sts[i as int]);
            assert(orest[0] == orig[i as int]);
            assert(rest.subrange(1, rest.len() as int) =~= sts.subrange(i + 1, n as int));
            assert(orest.subrange(1, orest.len() as int) =~= orig.subrange(i + 1, n as int));
        }
        let is_failure = match &res.status {
            StageStatus::UnrecoverableFailure => true,
            _ => false,
        };
        result.append_stage_result(res);
        if is_failure {
            stopped = true;
        }
        i = i + 1;
    }
    proof {
        if !stopped {
            assert(i == n);
            assert(sts.subrange(n as int, n as int) =~= Seq::<StageStatus>::empty());
            assert(orig.subrange(n as int, n as int) =~= Seq::<StageResult>::empty());
            assert(result.output.sections@ =~= result.output.sections@ + Seq::<Section>::empty());
        }
    }
    result
}

/// The sum of the partial deductions of a sequence of stage statuses that
/// hold only partial deductions.
pub open spec fn partial_sum(rs: Seq<StageStatus>) -> nat
    decreases rs.len(),
{
    if rs.len() == 0 {
        0
    } else {
        let head = match rs[0] {
            StageStatus::Continue { points_lost } => match points_lost@ {
                Some(p) => p,
                None => 0,
            },
            StageStatus::UnrecoverableFailure => 0,
        };
        head + partial_sum(rs.subrange(1, rs.len() as int))
    }
}

/// Whether every status lets the test continue with a partial deduction.
pub open spec fn all_partial(rs: Seq<StageStatus>) -> bool {
    forall|j: int|
        0 <= j < rs.len() ==> ((#[trigger] rs[j]) matches StageStatus::Continue { points_lost }
            && points_lost@ is Some)
}

/// When every stage continues with a partial deduction, the received
/// points at the end are the possible points less the sum of the
/// deductions, stopping at zero.
pub proof fn lemma_partial_deductions(recv: nat, failed: bool, rs: Seq<StageStatus>)
    requires
        all_partial(rs),
    ensures
        run_pipeline(recv, failed, rs).0 == ssub(recv, partial_sum(rs)),
    decreases rs.len(),
{
    if rs.len() > 0 {
        let rest = rs.subrange(1, rs.len() as int);
        assert(all_partial(rest)) by {
            assert(forall|j: int| 0 <= j < rest.len() ==> rest[j] == rs[j + 1]);
        }
        let (r1, f1) = apply_status(recv, failed, rs[0]);
        lemma_partial_deductions(r1, f1, rest);
    }
}

} // verus!
