use vstd::prelude::*;

use crate::output::{Content, Output, RichText, Section, Status, StatusUpdates, Update};
use crate::points::PointQuantity;
use crate::process::{Command, ProcessOutput};
use crate::stage::{StageResult, StageStatus};

verus! {

/// The compile stage's configuration: extra arguments handed to the build
/// tool. A makefile is expected in the workspace root.
#[derive(Debug, Clone)]
pub struct CompileConfig {
    pub make_args: Option<Vec<String>>,
}

/// The compile stage: runs the build tool in the workspace and fails the
/// test outright when the build fails.
#[derive(Debug)]
pub struct Compile {
    pub args: Vec<String>,
}

impl Compile {
    /// A compile stage with the configured arguments, or none.
    pub fn new(config: &CompileConfig) -> (r: Self)
        ensures
            match config.make_args {
                Some(a) => r.args@ == a@,
                None => r.args@.len() == 0,
            },
    {
        match &config.make_args {
            Some(a) => Self { args: a.clone() },
            None => Self { args: Vec::new() },
        }
    }

    /// The build command: the build tool with the configured arguments,
    /// run inside the workspace.
    pub fn command(&self, ws: &str) -> (r: Command)
        ensures
            r.program@ == "make"@,
            r.args@ == self.args@,
            r.envs@.len() == 0,
            r.cwd matches Some(c) && c@ == ws@,
            r.stdin is None,
            r.stdout is None,
            r.stderr is None,
            r.timeout_ms is None,
    {
        let cmd = Command::new("make").args(&self.args).cwd(ws);
        proof {
            assert(cmd.args@ =~= self.args@);
        }
        cmd
    }
}

/// Whether an output document is exactly the compile stage's feedback for
/// the given build output: one "Compile" section holding one status line,
/// passing on a clean exit, failing with the whole test's worth and the
/// captured streams otherwise.
pub open spec fn compile_output_matches(o: Output, out: ProcessOutput) -> bool {
    &&& o.sections@.len() == 1
    &&& o.sections@[0].header@ == "Compile"@
    &&& o.sections@[0].content@.len() == 1
    &&& match o.sections@[0].content@[0] {
        Content::StatusList(su) => {
            &&& su.updates@.len() == 1
            &&& su.updates@[0].description@ == "Compiling submission"@
            &&& if out.status is Success {
                su.updates@[0].status is Pass && su.updates@[0].notes is None
            } else {
                &&& su.updates@[0].status matches Status::Fail { points_lost } && points_lost
                    is FullPoints
                &&& match su.updates@[0].notes {
                    Some(n) => match n {
                        Content::Multiline(parts) => parts@.len() == 2 && (match parts@[0] {
                            Content::SubSection(s1) => s1.header@ == "Compile Stdout"@
                                && s1.content@.len() == 1 && (match s1.content@[0] {
                                Content::Block(t) => t.code && t.text@ == out.stdout@,
                                _ => false,
                            }),
                            _ => false,
                        }) && (match parts@[1] {
                            Content::SubSection(s2) => s2.header@ == "Compile Stderr"@
                                && s2.content@.len() == 1 && (match s2.content@[0] {
                                Content::Block(t) => t.code && t.text@ == out.stderr@,
                                _ => false,
                            }),
                            _ => false,
                        }),
                        _ => false,
                    },
                    None => false,
                }
            }
        },
        _ => false,
    }
}

/// Judges the build output: a clean exit lets the test continue with
/// nothing lost, and anything else stops the test, with the captured
/// streams attached as feedback.
pub fn compile_stage_result(out: ProcessOutput) -> (r: StageResult)
    ensures
        out.status is Success ==> (match r.status {
            StageStatus::Continue { points_lost } => points_lost@ == Some(0nat),
            _ => false,
        }),
        !(out.status is Success) ==> r.status is UnrecoverableFailure,
        r.output matches Some(o) && compile_output_matches(o, out),
{
    let mut su = StatusUpdates::new();
    let success = out.status.is_ok();
    if success {
        su.add_update(Update::new_pass("Compiling submission"));
        let section = Section::new("Compile").content(Content::StatusList(su));
        StageResult::new_continue(PointQuantity::zero()).with_output(
            Output::new().section(section),
        )
    } else {
        let stdout_sec = Section::new("Compile Stdout").content(
            Content::Block(RichText::from_string_code(out.stdout)),
        );
        let stderr_sec = Section::new("Compile Stderr").content(
            Content::Block(RichText::from_string_code(out.stderr)),
        );
        let mut parts: Vec<Content> = Vec::new();
        parts.push(Content::SubSection(stdout_sec));
        parts.push(Content::SubSection(stderr_sec));
        let update = Update::new_fail("Compiling submission", PointQuantity::FullPoints).notes(
            Content::Multiline(parts),
        );
        su.add_update(update);
        let section = Section::new("Compile").content(Content::StatusList(su));
        StageResult::new_unrecoverable_failure().with_output(Output::new().section(section))
    }
}

} // verus!
