use vstd::prelude::*;

use crate::points::Points;
use crate::tid::TestId;

verus! {

/// When a test's feedback is shown to the student.
#[derive(Debug, Clone, Copy, PartialEq, Eq, Structural)]
pub enum Visibility {
    Hidden,
    Visible,
    AfterDueDate,
    AfterPublished,
}

/// The name of a visibility as written in reports.
pub open spec fn visibility_rendered(v: Visibility) -> Seq<char> {
    match v {
        Visibility::Hidden => "hidden"@,
        Visibility::Visible => "visible"@,
        Visibility::AfterDueDate => "after_due_date"@,
        Visibility::AfterPublished => "after_published"@,
    }
}

impl Visibility {
    /// Renders the visibility as written in reports.
    pub fn render(&self) -> (r: String)
        ensures
            r@ == visibility_rendered(*self),
    {
        match self {
            Visibility::Hidden => String::from_str("hidden"),
            Visibility::Visible => String::from_str("visible"),
            Visibility::AfterDueDate => String::from_str("after_due_date"),
            Visibility::AfterPublished => String::from_str("after_published"),
        }
    }
}

/// Per-test metadata from the test's configuration.
#[derive(Debug, Clone)]
pub struct TestDescription {
    pub name: String,
    pub description: String,
    pub test_id: TestId,
    pub total_points: Points,
    pub visibility: Visibility,
    pub tags: Option<Vec<String>>,
}

/// The textual format a report is written in.
#[derive(Debug, Clone, Copy, PartialEq, Eq, Structural)]
pub enum TextFormat {
    Text,
    Markdown,
}

/// The name of a text format as written in the results payload.
pub open spec fn text_format_rendered(f: TextFormat) -> Seq<char> {
    match f {
        TextFormat::Text => "Text"@,
        TextFormat::Markdown => "Markdown"@,
    }
}

impl TextFormat {
    pub fn render(&self) -> (r: String)
        ensures
            r@ == text_format_rendered(*self),
    {
        match self {
            TextFormat::Text => String::from_str("Text"),
            TextFormat::Markdown => String::from_str("Markdown"),
        }
    }
}

/// A test's result as the results payload reports it.
#[derive(Debug, Clone, Copy, PartialEq, Eq, Structural)]
pub enum TestStatus {
    Passed,
    Failed,
}

/// The name of a reported status.
pub open spec fn gs_status_rendered(s: TestStatus) -> Seq<char> {
    match s {
        TestStatus::Passed => "passed"@,
        TestStatus::Failed => "failed"@,
    }
}

impl TestStatus {
    pub fn render(&self) -> (r: String)
        ensures
            r@ == gs_status_rendered(*self),
    {
        match self {
            TestStatus::Passed => String::from_str("passed"),
            TestStatus::Failed => String::from_str("failed"),
        }
    }

    /// The reported status of a finished test.
    pub fn from_test_status(status: &crate::test::TestStatus) -> (r: Self)
        ensures
            (*status is Pass) ==> r is Passed,
            (*status is Fail) ==> r is Failed,
    {
        match status {
            crate::test::TestStatus::Pass(_) => TestStatus::Passed,
            crate::test::TestStatus::Fail(_) => TestStatus::Failed,
        }
    }
}

/// One test's entry in the results payload.
#[derive(Debug)]
pub struct TestResult {
    pub score: Points,
    pub max_score: Points,
    pub status: TestStatus,
    pub name: String,
    pub output: String,
    pub tags: Vec<String>,
    pub visibility: Visibility,
}

/// The whole results payload: the format of the rendered outputs and one
/// entry per test.
#[derive(Debug)]
pub struct Results {
    pub output_format: TextFormat,
    pub tests: Vec<TestResult>,
}

} // verus!
