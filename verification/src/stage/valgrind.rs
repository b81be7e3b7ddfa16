use vstd::prelude::*;

use crate::output::{Content, Output, RichText, Section, Status, StatusUpdates, Update};
use crate::points::{PointQuantity, Points};
use crate::process::{command_rendered, Command, ExitStatus, ProcessOutput, SignalType, StdinPipe};
use crate::stage::run::RunConfig;
use crate::stage::{StageResult, StageStatus};
use crate::strutil::{dec_rep, is_blank, str_is_blank, u64_to_string};

verus! {

/// The memory checker's default timeout, in milliseconds: two minutes,
/// twice the run stage's default.
pub const DEFAULT_VALGRIND_TIMEOUT_MS: u64 = 120000;

/// The exit code the memory checker is told to use for its own findings;
/// codes past it are reserved, so a smaller nonzero code is a fault.
pub const VALGRIND_ERROR_EXITCODE: i32 = 125;

/// The memory-check stage's configuration: what detected errors cost, and
/// the logical names of any suppression files.
#[derive(Debug, Clone)]
pub struct ValgrindConfig {
    pub points: PointQuantity,
    pub suppressions: Option<Vec<String>>,
}

/// What the fixed absolute-path substitution leaves of a text. The
/// substitution is a function of the text alone; what it produces on
/// given characters is learned only by running it.
pub uninterp spec fn hidden_paths_of(s: Seq<char>) -> Seq<char>;

/// Relies on regex::Regex::replace_all with a fixed pattern: the result
/// depends on the input text alone. Replaces each absolute path with its
/// basename, keeping the character before it.
#[verifier::external_body]
fn hide_absolute_paths(s: &str) -> (r: String)
    ensures
        r@ == hidden_paths_of(s@),
{
    let re = regex::Regex::new(r"(\W|^)(?:\/[^\/\s]+)+\/([^\/\s]+)\b").unwrap();
    re.replace_all(s, "$1$2").to_string()
}

/// Validates and post-processes the memory checker's log: a missing or
/// blank log is a fault of the grader; otherwise every absolute path in
/// it is shortened to its basename.
pub fn process_valgrind_log(contents: &str) -> (r: Result<String, String>)
    ensures
        is_blank(contents@) ==> r is Err,
        !is_blank(contents@) ==> match r {
            Ok(s) => s@ == hidden_paths_of(contents@),
            Err(_) => false,
        },
{
    if str_is_blank(contents) {
        Err(String::from_str("the memory checker log is missing or blank"))
    } else {
        Ok(hide_absolute_paths(contents))
    }
}

/// The views of the arguments of the memory-check command: the checker's
/// flags, one suppression flag per resolved path, a separator, the
/// executable's path, and the program's own arguments.
/// The checker's own flags, always first.
pub open spec fn valgrind_base_flags() -> Seq<Seq<char>> {
    seq!["--log-file=valgrind.log"@, "--leak-check=yes"@, "--error-exitcode=125"@,
        "--malloc-fill=0xF0"@, "--free-fill=0x0B"@]
}

pub open spec fn valgrind_args(
    supp_paths: Seq<String>,
    exec_path: Seq<char>,
    run_args: Seq<String>,
) -> Seq<Seq<char>> {
    valgrind_base_flags() + supp_paths.map_values(|p: String| "--suppressions="@ + p@) + seq![
        "--"@,
        exec_path,
    ] + run_args.map_values(|a: String| a@)
}

/// Builds the memory-check command: the checker with its logging, leak
/// checking and fill flags, the resolved suppressions, then the program
/// and its arguments; the stage's timeout is twice the run stage's, or
/// two minutes.
pub fn gen_valgrind_cmd(
    run_config: &RunConfig,
    supp_paths: &Vec<String>,
    exec_path: &str,
    ws: &str,
) -> (r: Command)
    requires
        run_config.timeout_wf(),
        run_config.spec_timeout_ms() * 2 <= u64::MAX,
    ensures
        r.program@ == "valgrind"@,
        r.args@.map_values(|a: String| a@) == valgrind_args(
            supp_paths@,
            exec_path@,
            run_config.args@,
        ),
        r.envs@.len() == 0,
        r.cwd matches Some(c) && c@ == ws@,
        match run_config.stdin {
            Some(p) => r.stdin matches Some(sp) && sp matches StdinPipe::FromPath(q) && q@ == p@,
            None => r.stdin is None,
        },
        r.stdout is None,
        r.stderr is None,
        r.timeout_ms == Some(
            (match run_config.timeout_sec {
                Some(_) => run_config.spec_timeout_ms() * 2,
                None => DEFAULT_VALGRIND_TIMEOUT_MS as nat,
            }) as u64,
        ),
{
    let mut cmd = Command::new("valgrind").arg("--log-file=valgrind.log").arg(
        "--leak-check=yes",
    ).arg("--error-exitcode=125").arg("--malloc-fill=0xF0").arg("--free-fill=0x0B");
    let ghost base = valgrind_base_flags();
    proof {
        assert(cmd.args@.map_values(|a: String| a@) =~= base);
    }
    let n = supp_paths.len();
    let mut i: usize = 0;
    while i < n
        invariant
            n == supp_paths@.len(),
            0 <= i <= n,
            cmd.program@ == "valgrind"@,
            cmd.envs@.len() == 0,
            cmd.cwd is None,
            cmd.stdin is None,
            cmd.stdout is None,
            cmd.stderr is None,
            cmd.timeout_ms is None,
            cmd.args@.map_values(|a: String| a@) == valgrind_base_flags() + supp_paths@.take(
                i as int,
            ).map_values(|p: String| "--suppressions="@ + p@),
        decreases n - i,
    {
        let mut flag = String::from_str("--suppressions=");
        flag.append(supp_paths[i].as_str());
        let ghost prev_args = cmd.args@;
        cmd.add_arg(flag.as_str());
        proof {
            let f = |p: String| "--suppressions="@ + p@;
            let fv = |a: String| a@;
            assert(supp_paths@.take(i + 1).drop_last() =~= supp_paths@.take(i as int));
            assert(supp_paths@.take(i + 1).last() == supp_paths@[i as int]);
            let base = valgrind_base_flags();
            let prev = base + supp_paths@.take(i as int).map_values(f);
            assert(prev_args.map_values(fv) =~= prev);
            assert(prev_args.len() == prev.len());
            assert(prev.len() == 5 + i);
            let lhs = cmd.args@.map_values(fv);
            let rhs = base + supp_paths@.take(i + 1).map_values(f);
            assert(supp_paths@.take(i + 1).map_values(f).len() == i + 1);
            assert(cmd.args@.len() == prev_args.len() + 1);
            assert(lhs.len() == rhs.len());
            assert forall|k: int| 0 <= k < lhs.len() implies lhs[k] == rhs[k] by {
                if k < lhs.len() - 1 {
                    assert(cmd.args@[k] == cmd.args@.drop_last()[k]);
                    assert(cmd.args@[k] == prev_args[k]);
                    assert(lhs[k] == prev[k]);
                } else {
                    assert(cmd.args@[k]@ == flag@);
                    assert(lhs[k] == flag@);
                    assert(supp_paths@.take(i + 1).map_values(f)[k - 5] == f(
                        supp_paths@.take(i + 1)[k - 5],
                    ));
                }
            }
            assert(lhs =~= rhs);
        }
        i = i + 1;
    }
    proof {
        assert(supp_paths@.take(n as int) =~= supp_paths@);
    }
    cmd.add_arg("--");
    cmd.add_arg(exec_path);
    let ghost mid = valgrind_base_flags() + supp_paths@.map_values(
        |p: String| "--suppressions="@ + p@,
    ) + seq!["--"@, exec_path@];
    proof {
        let lhs = cmd.args@.map_values(|a: String| a@);
        assert(lhs.len() == mid.len());
        assert(lhs =~= mid);
    }
    let mut cmd = cmd.args(&run_config.args);
    proof {
        let lhs = cmd.args@.map_values(|a: String| a@);
        let rhs = valgrind_args(supp_paths@, exec_path@, run_config.args@);
        assert(lhs.len() == rhs.len());
        assert forall|k: int| 0 <= k < lhs.len() implies lhs[k] == rhs[k] by {
            if k < mid.len() {
                assert(lhs[k] == mid[k]);
            } else {
                assert(cmd.args@[k] == run_config.args@[k - mid.len()]);
                assert(rhs[k] == run_config.args@.map_values(|a: String| a@)[k - mid.len()]);
            }
        }
        assert(lhs =~= rhs);
    }
    match &run_config.stdin {
        Some(p) => cmd.set_stdin(StdinPipe::FromPath(p.clone())),
        None => {},
    }
    match run_config.timeout_sec {
        Some(_) => {
            let ms = run_config.timeout_ms();
            proof {
                assert(ms * 2 == run_config.spec_timeout_ms() * 2);
            }
            cmd.set_timeout(ms * 2);
        },
        None => {
            cmd.set_timeout(DEFAULT_VALGRIND_TIMEOUT_MS);
        },
    }
    cmd.set_cwd(ws);
    cmd
}

/// The timeout note of the memory-check stage, naming whole seconds.
pub open spec fn valgrind_timeout_note(ms: nat) -> Seq<char> {
    "Your submission timed out after "@ + dec_rep(ms / 1000) + (if ms / 1000 == 1 {
        " second :("@
    } else {
        " seconds :("@
    })
}

/// The note of a run the kernel ended by signal.
pub open spec fn valgrind_signal_note(sig: SignalType) -> Seq<char> {
    match sig {
        SignalType::Abort => "Your submission was killed by SIGABRT!"@,
        SignalType::SegFault => "Your submission was killed by SIGSEGV!"@,
    }
}

/// Whether the memory-check stage's output document matches the run: the
/// post-processed command line always comes first; a status list follows;
/// every ending but a timeout also shows the post-processed log in an
/// "Output" subsection.
pub open spec fn valgrind_output_matches(
    o: Output,
    config: ValgrindConfig,
    cmd_line: Seq<char>,
    status: ExitStatus,
    log: Seq<char>,
) -> bool {
    &&& o.sections@.len() == 1
    &&& o.sections@[0].header@ == "Valgrind"@
    &&& o.sections@[0].content@.len() >= 2
    &&& match o.sections@[0].content@[0] {
        Content::SubSection(s) => s.header@ == "Run Command"@ && s.content@.len() == 1 && (
        match s.content@[0] {
            Content::Block(t) => t.code && t.text@ == hidden_paths_of(cmd_line),
            _ => false,
        }),
        _ => false,
    }
    &&& match o.sections@[0].content@[1] {
        Content::StatusList(su) => {
            &&& su.updates@.len() == 1
            &&& su.updates@[0].description@ == "running valgrind"@
            &&& match status {
                ExitStatus::Success => su.updates@[0].status is Pass && su.updates@[0].notes
                    is None,
                ExitStatus::Timeout(ms) => su.updates@[0].status matches Status::Fail {
                    points_lost,
                } && points_lost == config.points && (match su.updates@[0].notes {
                    Some(n) => match n {
                        Content::Block(t) => !t.code && t.text@ == valgrind_timeout_note(
                            ms as nat,
                        ),
                        _ => false,
                    },
                    None => false,
                }),
                ExitStatus::Signal(sig) => su.updates@[0].status matches Status::Fail {
                    points_lost,
                } && points_lost == config.points && (match su.updates@[0].notes {
                    Some(n) => match n {
                        Content::Block(t) => !t.code && t.text@ == valgrind_signal_note(sig),
                        _ => false,
                    },
                    None => false,
                }),
                ExitStatus::Failure(_) => su.updates@[0].status matches Status::Fail {
                    points_lost,
                } && points_lost == config.points && (match su.updates@[0].notes {
                    Some(n) => match n {
                        Content::Block(t) => !t.code && t.text@
                            == "Valgrind Errors Detected"@,
                        _ => false,
                    },
                    None => false,
                }),
            }
        },
        _ => false,
    }
    &&& if status is Timeout {
        o.sections@[0].content@.len() == 2
    } else {
        o.sections@[0].content@.len() == 3 && match o.sections@[0].content@[2] {
            Content::SubSection(s) => s.header@ == "Output"@ && s.content@.len() == 1 && (
            match s.content@[0] {
                Content::Block(t) => !t.code && t.text@ == hidden_paths_of(log),
                _ => false,
            }),
            _ => false,
        }
    }
}

/// Judges the memory-check stage once the checker has run and its log has
/// been read. A blank log, or an exit code below the reserved range, is a
/// fault of the grader. A clean run continues with nothing lost; detected
/// errors, a timeout or a death by signal continue with the configured
/// deduction.
pub fn valgrind_stage_result(
    config: &ValgrindConfig,
    cmd: &Command,
    out: &ProcessOutput,
    log_contents: &str,
) -> (r: Result<StageResult, String>)
    ensures
        is_blank(log_contents@) ==> r is Err,
        (match out.status {
            ExitStatus::Failure(rc) => rc < VALGRIND_ERROR_EXITCODE,
            _ => false,
        }) ==> r is Err,
        !is_blank(log_contents@) && (match out.status {
            ExitStatus::Failure(rc) => rc >= VALGRIND_ERROR_EXITCODE,
            _ => true,
        }) ==> match r {
            Ok(sr) => {
                &&& match sr.status {
                    StageStatus::Continue { points_lost } => if out.status is Success {
                        points_lost@ == Some(0nat)
                    } else {
                        points_lost == config.points
                    },
                    _ => false,
                }
                &&& match sr.output {
                    Some(o) => valgrind_output_matches(
                        o,
                        *config,
                        command_rendered(*cmd),
                        out.status,
                        log_contents@,
                    ),
                    None => false,
                }
            },
            Err(_) => false,
        },
{
    let log = match process_valgrind_log(log_contents) {
        Ok(l) => l,
        Err(e) => {
            return Err(e);
        },
    };
    let mut sect = Section::new("Valgrind");
    let line = cmd.render();
    let hidden_line = hide_absolute_paths(line.as_str());
    sect.add_content(
        Content::sub_section(
            "Run Command",
            Content::Block(RichText::from_string_code(hidden_line)),
        ),
    );
    let mut su = StatusUpdates::new();
    let mut with_log = true;
    match &out.status {
        ExitStatus::Success => {
            su.add_update(Update::new_pass("running valgrind"));
        },
        ExitStatus::Timeout(ms) => {
            let mut note = String::from_str("Your submission timed out after ");
            let secs = u64_to_string(*ms / 1000);
            note.append(secs.as_str());
            if *ms / 1000 == 1 {
                note.append(" second :(");
            } else {
                note.append(" seconds :(");
            }
            su.add_update(
                Update::new_fail("running valgrind", config.points).notes(
                    Content::Block(RichText::from_string(note)),
                ),
            );
            with_log = false;
        },
        ExitStatus::Signal(sig) => {
            let note = match sig {
                SignalType::Abort => "Your submission was killed by SIGABRT!",
                SignalType::SegFault => "Your submission was killed by SIGSEGV!",
            };
            su.add_update(
                Update::new_fail("running valgrind", config.points).notes(Content::text(note)),
            );
        },
        ExitStatus::Failure(rc) => {
            if *rc < VALGRIND_ERROR_EXITCODE {
                return Err(
                    String::from_str(
                        "the memory checker exited below its reserved error code",
                    ),
                );
            }
            su.add_update(
                Update::new_fail("running valgrind", config.points).notes(
                    Content::text("Valgrind Errors Detected"),
                ),
            );
        },
    }
    sect.add_content(Content::StatusList(su));
    if with_log {
        sect.add_content(
            Content::sub_section("Output", Content::Block(RichText::from_string(log))),
        );
    }
    let points_lost = if out.status.is_ok() {
        PointQuantity::zero()
    } else {
        config.points
    };
    Ok(
        StageResult::new(
            StageStatus::Continue { points_lost },
            Some(Output::new().section(sect)),
        ),
    )
}

} // verus!
