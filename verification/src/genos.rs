use vstd::prelude::*;

use crate::output::{Content, Output, Section};
use crate::points::Points;
use crate::strutil::dec_rep;
use crate::test::{TestResult, TestStatus};
use crate::tid::TestId;

verus! {

/// The name of a test's workspace directory under the root workspace.
pub fn test_workspace_id(tid: TestId) -> (r: String)
    ensures
        r@ == "test_"@ + dec_rep(tid@),
{
    let mut s = String::from_str("test_");
    let id = tid.render();
    s.append(id.as_str());
    s
}

/// The result recorded for a test that the grader itself failed: no
/// points, and a section asking the student to report the fault.
pub fn system_error_result(max_points: Points) -> (r: TestResult)
    ensures
        r.status matches TestStatus::Fail(s) && s@.received == 0 && s@.possible == max_points@,
        r.output.sections@.len() == 1,
        r.output.sections@[0].header@ == "System Error Occurred"@,
        r.output.sections@[0].content@.len() == 1,
        match r.output.sections@[0].content@[0] {
            Content::Block(t) => !t.code && t.text@ == "Please report this to course staff"@,
            _ => false,
        },
        max_points.wf() ==> r.status.spec_score().wf(),
{
    let mut result = TestResult::new(max_points);
    result.lose_full_points();
    let section = Section::new("System Error Occurred").content(
        Content::text("Please report this to course staff"),
    );
    result.output.add_section(section);
    result
}

/// What one test's run left behind: its recorded result, and the system
/// error that produced it, if the grader itself failed.
#[derive(Debug)]
pub struct RunOutcome {
    pub result: TestResult,
    pub error: Option<String>,
}

/// The position of the first outcome that carries a system error.
pub open spec fn first_error_index(outcomes: Seq<RunOutcome>) -> int
    decreases outcomes.len(),
{
    if outcomes.len() == 0 {
        -1
    } else if outcomes[0].error is Some {
        0
    } else {
        let r = first_error_index(outcomes.subrange(1, outcomes.len() as int));
        if r < 0 {
            -1
        } else {
            r + 1
        }
    }
}

/// Collates a run: every recorded result is returned in order when no
/// test hit a system error; otherwise the first system error surfaces.
pub fn collate_results(outcomes: Vec<RunOutcome>) -> (r: Result<Vec<TestResult>, String>)
    ensures
        ({
            let fe = first_error_index(outcomes@);
            if fe < 0 {
                match r {
                    Ok(results) => results@.len() == outcomes@.len() && forall|j: int|
                        0 <= j < outcomes@.len() ==> #[trigger] results@[j]
                            == outcomes@[j].result,
                    Err(_) => false,
                }
            } else {
                match r {
                    Ok(_) => false,
                    Err(e) => Some(e@) == (match outcomes@[fe].error {
                        Some(m) => Some(m@),
                        None => None::<Seq<char>>,
                    }),
                }
            }
        }),
{
    let ghost orig = outcomes@;
    let mut rest = outcomes;
    let mut results: Vec<TestResult> = Vec::new();
    let n = rest.len();
    let mut i: usize = 0;
    proof {
        assert(orig.subrange(0, n as int) =~= orig);
    }
    while i < n
        invariant
            orig == outcomes@,
            n == orig.len(),
            0 <= i <= n,
            rest@ == orig.subrange(i as int, n as int),
            results@.len() == i,
            forall|j: int| 0 <= j < i ==> #[trigger] results@[j] == orig[j].result,
            forall|j: int| 0 <= j < i ==> !((#[trigger] orig[j]).error is Some),
            first_error_index(orig) >= 0 ==> first_error_index(orig) >= i,
            first_error_index(orig) == (if first_error_index(
                orig.subrange(i as int, n as int),
            ) < 0 {
                -1int
            } else {
                i + first_error_index(orig.subrange(i as int, n as int))
            }),
        decreases n - i,
    {
        let ghost tail = orig.subrange(i as int, n as int);
        let oc = rest.remove(0);
        proof {
            assert(oc == orig[i as int]);
            assert(rest@ =~= orig.subrange(i + 1, n as int));
            assert(tail[0] == orig[i as int]);
            assert(tail.subrange(1, tail.len() as int) =~= orig.subrange(i + 1, n as int));
        }
        match oc.error {
            Some(e) => {
                proof {
                    assert(oc.error == Some(e));
                    assert(orig[i as int].error == Some(e));
                    assert(tail[0].error is Some);
                    assert(first_error_index(tail) == 0);
                    assert(first_error_index(orig) == i as int);
                }
                return Err(e);
            },
            None => {
                results.push(oc.result);
            },
        }
        i = i + 1;
    }
    proof {
        assert(orig.subrange(n as int, n as int) =~= Seq::<RunOutcome>::empty());
        assert(first_error_index(orig) < 0);
    }
    Ok(results)
}

} // verus!
