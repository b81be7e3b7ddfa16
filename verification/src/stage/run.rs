use vstd::prelude::*;

use crate::output::{Content, Output, RichText, Section, Status, StatusUpdates, Update};
use crate::points::{pq_sum, PointQuantity};
use crate::process::{command_rendered, duration_rendered, Command, ExitStatus, ProcessOutput, SignalType, StdinPipe};
use crate::stage::{StageResult, StageStatus};
use crate::strutil::int_rendered;

verus! {

/// The run stage's default timeout, in milliseconds: one minute.
pub const DEFAULT_RUN_TIMEOUT_MS: u64 = 60000;

/// What exit code the program is expected to give, and what a wrong code
/// costs.
#[derive(Debug, Clone, Copy)]
pub struct ReturnCodeConfig {
    pub expected: i32,
    pub points: PointQuantity,
}

/// The run stage's configuration: the executable (relative to the
/// workspace), its arguments, optional pipes, an optional timeout in
/// seconds, an optional expected exit code, and a flag that turns off
/// filling freshly allocated memory with garbage.
#[derive(Debug, Clone)]
pub struct RunConfig {
    pub args: Vec<String>,
    pub executable: String,
    pub timeout_sec: Option<u64>,
    pub stdout: Option<String>,
    pub stderr: Option<String>,
    pub stdin: Option<String>,
    pub return_code: Option<ReturnCodeConfig>,
    pub disable_garbage_memory: Option<bool>,
}

impl RunConfig {
    /// A configured timeout must fit when counted in milliseconds.
    pub open spec fn timeout_wf(&self) -> bool {
        match self.timeout_sec {
            Some(s) => s <= u64::MAX / 1000,
            None => true,
        }
    }

    /// The stage's timeout in milliseconds: the configured one, or the
    /// one-minute default.
    pub open spec fn spec_timeout_ms(&self) -> nat {
        match self.timeout_sec {
            Some(s) => (s * 1000) as nat,
            None => DEFAULT_RUN_TIMEOUT_MS as nat,
        }
    }

    /// The stage's timeout in milliseconds.
    pub fn timeout_ms(&self) -> (r: u64)
        requires
            self.timeout_wf(),
        ensures
            r == self.spec_timeout_ms(),
    {
        match self.timeout_sec {
            Some(s) => {
                proof {
                    assert(s * 1000 <= u64::MAX) by (nonlinear_arith)
                        requires
                            s <= u64::MAX / 1000,
                    ;
                }
                s * 1000
            },
            None => DEFAULT_RUN_TIMEOUT_MS,
        }
    }

    /// The path of the student executable inside the workspace.
    pub fn executable_path(&self, ws: &str) -> (r: String)
        ensures
            r@ == ws@ + "/"@ + self.executable@,
    {
        let mut p = String::from_str(ws);
        p.append("/");
        p.append(self.executable.as_str());
        p
    }
}

/// The views of the arguments the run stage hands its command when the
/// program runs under the memory checker: the checker's own flags, then
/// the executable, then the configured arguments.
pub open spec fn garbage_run_args(config: RunConfig) -> Seq<Seq<char>> {
    seq!["--log-file=valgrind.log"@, "--malloc-fill=0xFF"@, "--free-fill=0xAA"@,
        config.executable@] + config.args@.map_values(|a: String| a@)
}

/// Builds the run stage's command. When garbage filling is enabled and the
/// memory checker is available, the program runs under it with
/// garbage-fill flags; otherwise the program runs directly. The
/// configured pipes apply, the working directory is the workspace, and
/// the timeout is the configured one or the default.
pub fn get_run_command(config: &RunConfig, ws: &str, use_valgrind: bool) -> (r: Command)
    requires
        config.timeout_wf(),
    ensures
        use_valgrind ==> r.program@ == "valgrind"@ && r.args@.map_values(|a: String| a@)
            == garbage_run_args(*config),
        !use_valgrind ==> r.program@ == config.executable@ && r.args@.map_values(
            |a: String| a@,
        ) == config.args@.map_values(|a: String| a@),
        r.envs@.len() == 0,
        r.cwd matches Some(c) && c@ == ws@,
        match config.stdin {
            Some(p) => r.stdin matches Some(sp) && sp matches StdinPipe::FromPath(q) && q@ == p@,
            None => r.stdin is None,
        },
        match config.stdout {
            Some(p) => r.stdout matches Some(q) && q@ == p@,
            None => r.stdout is None,
        },
        match config.stderr {
            Some(p) => r.stderr matches Some(q) && q@ == p@,
            None => r.stderr is None,
        },
        r.timeout_ms == Some(config.spec_timeout_ms() as u64),
{
    let mut cmd: Command;
    if use_valgrind {
        cmd = Command::new("valgrind").arg("--log-file=valgrind.log").arg(
            "--malloc-fill=0xFF",
        ).arg("--free-fill=0xAA").arg(config.executable.as_str()).args(&config.args);
        proof {
            assert(cmd.args@.map_values(|a: String| a@) =~= garbage_run_args(*config));
        }
    } else {
        cmd = Command::new(config.executable.as_str()).args(&config.args);
        proof {
            assert(cmd.args@.map_values(|a: String| a@) =~= config.args@.map_values(
                |a: String| a@,
            ));
        }
    }
    match &config.stdout {
        Some(p) => cmd.set_stdout(p.as_str()),
        None => {},
    }
    match &config.stderr {
        Some(p) => cmd.set_stderr(p.as_str()),
        None => {},
    }
    match &config.stdin {
        Some(p) => cmd.set_stdin(StdinPipe::FromPath(p.clone())),
        None => {},
    }
    cmd.set_timeout(config.timeout_ms());
    cmd.set_cwd(ws);
    cmd
}

/// The feedback text for a run that a signal ended.
pub open spec fn signal_feedback(sig: SignalType) -> Seq<char> {
    match sig {
        SignalType::Abort => "Runtime error: Your submission exited with error code 6 (abort signal)"@,
        SignalType::SegFault => "Runtime error: Your submission exited with error code 11 (segmentation fault)\nDouble check you initialized all your variables before using them.\nCheck your variables again.\nCheck any array access points to make sure you are in bounds.\nCheck pointer dereferences, you may be accidentally dereferencing a NULL pointer."@,
    }
}

/// The feedback text for a run that did not complete: a timeout note or
/// the signal's explanation.
pub open spec fn failed_run_note(status: ExitStatus) -> Seq<char> {
    match status {
        ExitStatus::Timeout(ms) => "Runtime error: program timed out after "@ + duration_rendered(
            ms as nat,
        ),
        ExitStatus::Signal(sig) => signal_feedback(sig),
        _ => Seq::empty(),
    }
}

/// The feedback for a run that did not complete.
pub fn get_failed_run_notes(status: &ExitStatus) -> (r: Content)
    requires
        *status is Timeout || *status is Signal,
    ensures
        r matches Content::Block(t) && !t.code && t.text@ == failed_run_note(*status),
{
    match status {
        ExitStatus::Timeout(ms) => {
            let mut text = String::from_str("Runtime error: program timed out after ");
            let d = crate::process::render_duration(*ms);
            text.append(d.as_str());
            Content::Block(RichText::from_string(text))
        },
        ExitStatus::Signal(sig) => {
            match sig {
                SignalType::Abort => Content::text(
                    "Runtime error: Your submission exited with error code 6 (abort signal)",
                ),
                SignalType::SegFault => Content::text(
                    "Runtime error: Your submission exited with error code 11 (segmentation fault)\nDouble check you initialized all your variables before using them.\nCheck your variables again.\nCheck any array access points to make sure you are in bounds.\nCheck pointer dereferences, you may be accidentally dereferencing a NULL pointer.",
                ),
            }
        },
        _ => Content::text(""),
    }
}

/// The description of the run stage's command subsection.
pub open spec fn run_command_content(c: Content, cmd: Command) -> bool {
    match c {
        Content::SubSection(s) => s.header@ == "run command"@ && s.content@.len() == 1 && (
        match s.content@[0] {
            Content::Block(t) => t.code && t.text@ == command_rendered(cmd),
            _ => false,
        }),
        _ => false,
    }
}

/// Whether the run stage's status list reports the given run.
pub open spec fn run_updates_match(su: StatusUpdates, config: RunConfig, out: ProcessOutput) -> bool {
    if !(out.status is Success || out.status is Failure) {
        &&& su.updates@.len() == 1
        &&& su.updates@[0].description@ == "Running program"@
        &&& su.updates@[0].status matches Status::Fail { points_lost } && points_lost
            is FullPoints
        &&& match su.updates@[0].notes {
            Some(n) => match n {
                Content::Block(t) => !t.code && t.text@ == failed_run_note(out.status),
                _ => false,
            },
            None => false,
        }
    } else {
        &&& su.updates@.len() >= 1
        &&& su.updates@[0].description@ == "Running program"@
        &&& su.updates@[0].status is Pass
        &&& su.updates@[0].notes is None
        &&& match config.return_code {
            Some(rc) => {
                &&& su.updates@.len() == 2
                &&& su.updates@[1].description@ == "Checking return code"@
                &&& if exit_code_of(out.status) == rc.expected as int {
                    su.updates@[1].status is Pass && su.updates@[1].notes is None
                } else {
                    &&& su.updates@[1].status matches Status::Fail { points_lost }
                        && points_lost is FullPoints
                    &&& match su.updates@[1].notes {
                        Some(n) => match n {
                            Content::Block(t) => !t.code && t.text@ == "Expected "@
                                + int_rendered(rc.expected as int) + ", but found "@
                                + int_rendered(exit_code_of(out.status)),
                            _ => false,
                        },
                        None => false,
                    }
                }
            },
            None => su.updates@.len() == 1,
        }
    }
}

/// The exit code of a completed run.
pub open spec fn exit_code_of(status: ExitStatus) -> int {
    match status {
        ExitStatus::Success => 0,
        ExitStatus::Failure(rc) => rc as int,
        _ => 0,
    }
}

/// Judges the run stage's outcome once the command has run. A missing
/// executable is a fault of the grader, reported before anything runs. A
/// run that did not complete stops the test. A completed run continues,
/// deducting the configured points when an expected exit code was
/// configured and not met.
pub fn run_stage_result(
    config: &RunConfig,
    cmd: &Command,
    executable_exists: bool,
    out: &ProcessOutput,
) -> (r: Result<StageResult, String>)
    ensures
        !executable_exists ==> r is Err,
        executable_exists ==> match r {
            Err(_) => false,
            Ok(sr) => {
            &&& if !(out.status is Success || out.status is Failure) {
                sr.status is UnrecoverableFailure
            } else {
                sr.status matches StageStatus::Continue { points_lost } && points_lost@ == (
                match config.return_code {
                    Some(rc) => if exit_code_of(out.status) == rc.expected as int {
                        Some(0nat)
                    } else {
                        pq_sum(Some(0nat), rc.points@)
                    },
                    None => Some(0nat),
                })
            }
            &&& match sr.output {
                Some(o) => o.sections@.len() == 1 && o.sections@[0].header@ == "Run Program"@
                    && o.sections@[0].content@.len() == 2 && run_command_content(
                    o.sections@[0].content@[0],
                    *cmd,
                ) && (match o.sections@[0].content@[1] {
                    Content::StatusList(su) => run_updates_match(su, *config, *out),
                    _ => false,
                }),
                None => false,
            }
            },
        },
{
    if !executable_exists {
        let mut msg = String::from_str("Could not find student executable ");
        msg.append(config.executable.as_str());
        return Err(msg);
    }
    let mut section = Section::new("Run Program");
    let line = cmd.render();
    section.add_content(
        Content::sub_section("run command", Content::Block(RichText::from_string_code(line))),
    );
    let mut su = StatusUpdates::new();
    let completed = out.status.completed();
    if !completed {
        let notes = get_failed_run_notes(&out.status);
        su.add_update(Update::new_fail("Running program", PointQuantity::FullPoints).notes(notes));
        section.add_content(Content::StatusList(su));
        return Ok(
            StageResult::new_unrecoverable_failure().with_output(Output::new().section(section)),
        );
    }
    su.add_update(Update::new_pass("Running program"));
    let mut points_lost = PointQuantity::zero();
    match &config.return_code {
        Some(rc) => {
            let code = match out.status.exit_code() {
                Some(c) => c,
                None => 0,
            };
            if code != rc.expected {
                let mut note = String::from_str("Expected ");
                let e = crate::strutil::i32_to_string(rc.expected);
                note.append(e.as_str());
                note.append(", but found ");
                let f = crate::strutil::i32_to_string(code);
                note.append(f.as_str());
                su.add_update(
                    Update::new_fail("Checking return code", PointQuantity::FullPoints).notes(
                        Content::Block(RichText::from_string(note)),
                    ),
                );
                proof {
                    crate::points::lemma_pq_bounded(rc.points);
                }
                points_lost = points_lost.add(rc.points);
            } else {
                su.add_update(Update::new_pass("Checking return code"));
            }
        },
        None => {},
    }
    section.add_content(Content::StatusList(su));
    Ok(StageResult::new_continue(points_lost).with_output(Output::new().section(section)))
}

} // verus!
