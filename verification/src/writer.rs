use vstd::prelude::*;

use crate::formatter::Formatter;
use crate::gs;
use crate::output::Output;
use crate::points::{points_rendered, Points};
use crate::render::{spec_render_output, join_strings};
use crate::strutil::{dec_rep, join};
use crate::test::TestStatus;
use crate::tid::TestId;

verus! {

/// Everything a writer needs about one finished test: its metadata, its
/// status and score, and its feedback document.
#[derive(Debug)]
pub struct TestReport {
    pub id: TestId,
    pub name: String,
    pub description: String,
    pub visibility: gs::Visibility,
    pub tags: Vec<String>,
    pub status: TestStatus,
    pub output: Output,
}

/// A score as written in reports: received over possible.
pub open spec fn score_rendered(received: nat, possible: nat) -> Seq<char> {
    points_rendered(received) + "/"@ + points_rendered(possible)
}

/// Renders a score as received over possible.
pub fn render_score(received: Points, possible: Points) -> (r: String)
    ensures
        r@ == score_rendered(received@, possible@),
{
    let mut s = received.render();
    s.append("/");
    let p = possible.render();
    s.append(p.as_str());
    s
}

/// One test's block in the human-readable report.
pub open spec fn report_block(rep: TestReport, fmt: Formatter) -> Seq<char> {
    "#################################\nTest Case "@ + dec_rep(rep.id@) + "\nName: "@
        + rep.name@ + "\nVisibility: "@ + gs::visibility_rendered(rep.visibility) + "\nScore: "@
        + score_rendered(rep.status.spec_score()@.received, rep.status.spec_score()@.possible)
        + "\nDisplay Status: "@ + gs::gs_status_rendered(
        if rep.status is Pass {
            gs::TestStatus::Passed
        } else {
            gs::TestStatus::Failed
        },
    ) + "\n|---    Gradescope  Output   ---|\n"@ + spec_render_output(rep.output, fmt)
        + "\n#################################"@
}

/// The identifiers of the failed tests, in order.
pub open spec fn failed_ids(reps: Seq<TestReport>) -> Seq<Seq<char>>
    decreases reps.len(),
{
    if reps.len() == 0 {
        Seq::empty()
    } else {
        let rest = failed_ids(reps.drop_last());
        if reps.last().status is Fail {
            rest.push(dec_rep(reps.last().id@))
        } else {
            rest
        }
    }
}

/// The sum of the received points over the reports.
pub open spec fn total_received(reps: Seq<TestReport>) -> nat
    decreases reps.len(),
{
    if reps.len() == 0 {
        0
    } else {
        total_received(reps.drop_last()) + reps.last().status.spec_score()@.received
    }
}

/// The sum of the possible points over the reports.
pub open spec fn total_possible(reps: Seq<TestReport>) -> nat
    decreases reps.len(),
{
    if reps.len() == 0 {
        0
    } else {
        total_possible(reps.drop_last()) + reps.last().status.spec_score()@.possible
    }
}

/// The blocks of the human-readable report, one per test.
pub open spec fn report_blocks(reps: Seq<TestReport>, fmt: Formatter) -> Seq<Seq<char>>
    decreases reps.len(),
{
    if reps.len() == 0 {
        Seq::empty()
    } else {
        report_blocks(reps.drop_last(), fmt).push(report_block(reps.last(), fmt))
    }
}

/// The whole human-readable report: one block per test, the total score,
/// and the failed tests' identifiers.
pub open spec fn stdout_report(reps: Seq<TestReport>, fmt: Formatter) -> Seq<char> {
    join(report_blocks(reps, fmt), "\n"@) + "\nScore: "@ + score_rendered(
        total_received(reps),
        total_possible(reps),
    ) + "\nFailed: "@ + join(failed_ids(reps), ", "@)
}

/// No prefix of the reports sums to more than all of them.
proof fn lemma_totals_mono(reps: Seq<TestReport>, k: int)
    requires
        0 <= k <= reps.len(),
    ensures
        total_received(reps.take(k)) <= total_received(reps),
        total_possible(reps.take(k)) <= total_possible(reps),
    decreases reps.len() - k,
{
    if k < reps.len() {
        lemma_totals_mono(reps, k + 1);
        assert(reps.take(k + 1).drop_last() =~= reps.take(k));
        assert(reps.take(k + 1).last() == reps[k]);
    } else {
        assert(reps.take(k) =~= reps);
    }
}

/// Renders the human-readable report: for each test its identifier, name,
/// visibility, score, status and rendered feedback, then the total score
/// and the identifiers of the failed tests.
pub fn render_stdout_report(reps: &Vec<TestReport>, fmt: &Formatter) -> (r: String)
    requires
        total_received(reps@) <= u64::MAX,
        total_possible(reps@) <= u64::MAX,
    ensures
        r@ == stdout_report(reps@, *fmt),
{
    let n = reps.len();
    let mut blocks: Vec<String> = Vec::new();
    let mut failed: Vec<String> = Vec::new();
    let mut received = Points::from_hundredths(0).unwrap();
    let mut possible = Points::from_hundredths(0).unwrap();
    let mut i: usize = 0;
    while i < n
        invariant
            n == reps@.len(),
            0 <= i <= n,
            total_received(reps@) <= u64::MAX,
            total_possible(reps@) <= u64::MAX,
            blocks@.map_values(|b: String| b@) == report_blocks(reps@.take(i as int), *fmt),
            failed@.map_values(|b: String| b@) == failed_ids(reps@.take(i as int)),
            received@ == total_received(reps@.take(i as int)),
            possible@ == total_possible(reps@.take(i as int)),
        decreases n - i,
    {
        let rep = &reps[i];
        let mut block = String::from_str("#################################\nTest Case ");
        let id = rep.id.render();
        block.append(id.as_str());
        block.append("\nName: ");
        block.append(rep.name.as_str());
        block.append("\nVisibility: ");
        let vis = rep.visibility.render();
        block.append(vis.as_str());
        block.append("\nScore: ");
        let score = rep.status.score();
        let sc = render_score(score.received(), score.possible());
        block.append(sc.as_str());
        block.append("\nDisplay Status: ");
        let st = gs::TestStatus::from_test_status(&rep.status);
        let str = st.render();
        block.append(str.as_str());
        block.append("\n|---    Gradescope  Output   ---|\n");
        let body = rep.output.transform(fmt);
        block.append(body.as_str());
        block.append("\n#################################");
        blocks.push(block);
        let is_fail = match rep.status {
            TestStatus::Fail(_) => true,
            TestStatus::Pass(_) => false,
        };
        if is_fail {
            failed.push(rep.id.render());
        }
        proof {
            assert(reps@.take(i + 1).drop_last() =~= reps@.take(i as int));
            assert(reps@.take(i + 1).last() == reps@[i as int]);
            assert(blocks@.map_values(|b: String| b@) =~= report_blocks(
                reps@.take(i + 1),
                *fmt,
            ));
            assert(failed@.map_values(|b: String| b@) =~= failed_ids(reps@.take(i + 1)));
            lemma_totals_mono(reps@, i + 1);
        }
        received = received.add(score.received());
        possible = possible.add(score.possible());
        i = i + 1;
    }
    proof {
        assert(reps@.take(n as int) =~= reps@);
    }
    let mut r = join_strings(&blocks, "\n");
    r.append("\nScore: ");
    let total = render_score(received, possible);
    r.append(total.as_str());
    r.append("\nFailed: ");
    let fl = join_strings(&failed, ", ");
    r.append(fl.as_str());
    r
}

/// Builds the results payload: one entry per test, in order, each with
/// its score, its reported status, its metadata, and its feedback
/// rendered under the given format.
pub fn build_results(
    reps: Vec<TestReport>,
    fmt: &Formatter,
    output_format: gs::TextFormat,
) -> (r: gs::Results)
    ensures
        r.output_format == output_format,
        r.tests@.len() == reps@.len(),
        forall|j: int|
            0 <= j < reps@.len() ==> {
                let t = #[trigger] r.tests@[j];
                let rep = reps@[j];
                &&& t.score@ == rep.status.spec_score()@.received
                &&& t.max_score@ == rep.status.spec_score()@.possible
                &&& (t.status is Passed) == (rep.status is Pass)
                &&& t.name@ == rep.name@
                &&& t.output@ == spec_render_output(rep.output, *fmt)
                &&& t.tags@ == rep.tags@
                &&& t.visibility == rep.visibility
            },
{
    let ghost orig = reps@;
    let mut rest = reps;
    let mut tests: Vec<gs::TestResult> = Vec::new();
    let n = rest.len();
    let mut i: usize = 0;
    proof {
        assert(orig.subrange(0, n as int) =~= orig);
    }
    while i < n
        invariant
            orig == reps@,
            n == orig.len(),
            0 <= i <= n,
            rest@ == orig.subrange(i as int, n as int),
            tests@.len() == i,
            forall|j: int|
                0 <= j < i ==> {
                    let t = #[trigger] tests@[j];
                    let rep = orig[j];
                    &&& t.score@ == rep.status.spec_score()@.received
                    &&& t.max_score@ == rep.status.spec_score()@.possible
                    &&& (t.status is Passed) == (rep.status is Pass)
                    &&& t.name@ == rep.name@
                    &&& t.output@ == spec_render_output(rep.output, *fmt)
                    &&& t.tags@ == rep.tags@
                    &&& t.visibility == rep.visibility
                },
        decreases n - i,
    {
        let rep = rest.remove(0);
        proof {
            assert(rep == orig[i as int]);
            assert(rest@ =~= orig.subrange(i + 1, n as int));
        }
        let score = rep.status.score();
        let output = rep.output.transform(fmt);
        let entry = gs::TestResult {
            score: score.received(),
            max_score: score.possible(),
            status: gs::TestStatus::from_test_status(&rep.status),
            name: rep.name,
            output,
            tags: rep.tags,
            visibility: rep.visibility,
        };
        tests.push(entry);
        i = i + 1;
    }
    gs::Results { output_format, tests }
}

} // verus!
