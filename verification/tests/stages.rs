use genos::config::{TestConfig, TestConfigValidationError, TestType};
use genos::genos::{collate_results, system_error_result, test_workspace_id, RunOutcome};
use genos::gs::{TestDescription, Visibility};
use genos::points::Points;
use genos::stage::compare_files::{
    basename_of, compare_stage_result, diff_compare_outcome, diff_command, transform_bytes,
    CompareConfig, CompareOutcome, CompareType, ComparesConfig,
};
use genos::stage::compile::{compile_stage_result, Compile, CompileConfig};
use genos::stage::import_files::{ImportConfig, ImportFiles};
use genos::stage::run::{get_run_command, run_stage_result, ReturnCodeConfig, RunConfig};
use genos::stage::valgrind::{gen_valgrind_cmd, process_valgrind_log, valgrind_stage_result, ValgrindConfig};
use genos::finder::{parse_test_dir_name, resolve_test_resource};
use genos::test::fold_stage_results;
use genos::{
    ExitStatus, Formatter, PointQuantity, ProcessOutput, SignalType, StageResult, StageStatus,
    TestId,
};

fn run_config(executable: &str) -> RunConfig {
    RunConfig {
        args: Vec::new(),
        executable: executable.to_string(),
        timeout_sec: None,
        stdout: None,
        stderr: None,
        stdin: None,
        return_code: None,
        disable_garbage_memory: None,
    }
}

fn rendered(result: &StageResult) -> String {
    result
        .output
        .as_ref()
        .expect("expected stage output")
        .transform(&Formatter::markdown())
}

// ---------------------------------------------------------------------------
// The byte transform.
// ---------------------------------------------------------------------------

#[test]
fn transformed_content() {
    let content = transform_bytes(&vec![0, 9, 10, 11, 12, 13, 32, 5]);
    let expected = "01| (\\x00)(\\t)\\n\n02| (\\v)(\\f)(\\r) (0x5)";
    assert_eq!(&content, expected);
}

#[test]
fn transform_numbers_lines() {
    let content = transform_bytes(&b"ab\ncd\n".to_vec());
    assert_eq!(&content, "01| ab\\n\n02| cd\\n\n03| ");
}

#[test]
fn transform_round_trips_printable_text() {
    let original = "first line\nsecond 5 line\npath/with/slash and \\n literal\n";
    let transformed = transform_bytes(&original.as_bytes().to_vec());
    // strip each line's `NN| ` tag and turn each `\n` escape back into a
    // line feed
    let mut restored = String::new();
    for (i, line) in transformed.split('\n').enumerate() {
        let stripped = line
            .trim_start_matches(|c: char| c.is_ascii_digit())
            .strip_prefix("| ")
            .unwrap();
        if i > 0 {
            restored.push('\n');
        }
        restored.push_str(stripped.strip_suffix("\\n").unwrap_or(stripped));
    }
    assert_eq!(restored, original);
}

#[test]
fn transform_hex_codes() {
    let content = transform_bytes(&vec![0x1f, 0xff]);
    assert_eq!(&content, "01| (0x1f)(0xff)");
}

// ---------------------------------------------------------------------------
// The compile stage.
// ---------------------------------------------------------------------------

#[test]
fn compile_success() {
    let out = ProcessOutput::from_exit_status(ExitStatus::Success);
    let res = compile_stage_result(out);
    assert_eq!(
        res.status,
        StageStatus::Continue {
            points_lost: PointQuantity::zero()
        }
    );
    let text = rendered(&res);
    assert!(text.contains("Compiling submission"));
    assert!(text.contains("pass"));
}

#[test]
fn compile_failure() {
    let out = ProcessOutput::new(ExitStatus::Failure(2), "stdout here", "stderr also");
    let res = compile_stage_result(out);
    assert_eq!(res.status, StageStatus::UnrecoverableFailure);
    let text = rendered(&res);
    assert!(text.contains("stdout here"));
    assert!(text.contains("stderr also"));
    assert!(text.contains("Compile Stdout"));
    assert!(text.contains("Compile Stderr"));
}

#[test]
fn compile_command_runs_make_in_workspace() {
    let config = CompileConfig {
        make_args: Some(vec!["arg1".to_string(), "arg2".to_string()]),
    };
    let compile = Compile::new(&config);
    let cmd = compile.command("/ws");
    assert_eq!(cmd.program, "make");
    assert_eq!(cmd.args, vec!["arg1".to_string(), "arg2".to_string()]);
    assert_eq!(cmd.cwd, Some("/ws".to_string()));
}

// ---------------------------------------------------------------------------
// The run stage.
// ---------------------------------------------------------------------------

#[test]
fn executable_does_not_exist() {
    let config = run_config("bin/exec");
    let cmd = get_run_command(&config, "/ws", false);
    let out = ProcessOutput::from_exit_status(ExitStatus::Success);
    assert!(run_stage_result(&config, &cmd, false, &out).is_err());
}

#[test]
fn executor_timeout() {
    let config = run_config("exec");
    let cmd = get_run_command(&config, "/ws", false);
    let out = ProcessOutput::from_exit_status(ExitStatus::Timeout(10));
    let res = run_stage_result(&config, &cmd, true, &out).unwrap();
    assert_eq!(res.status, StageStatus::UnrecoverableFailure);
    assert!(rendered(&res).contains("program timed out after 10ms"));
}

#[test]
fn executor_abort() {
    let config = run_config("exec");
    let cmd = get_run_command(&config, "/ws", false);
    let out = ProcessOutput::from_exit_status(ExitStatus::Signal(SignalType::Abort));
    let res = run_stage_result(&config, &cmd, true, &out).unwrap();
    assert_eq!(res.status, StageStatus::UnrecoverableFailure);
    assert!(rendered(&res).contains("abort signal"));
}

#[test]
fn executor_segfault() {
    let config = run_config("exec");
    let cmd = get_run_command(&config, "/ws", false);
    let out = ProcessOutput::from_exit_status(ExitStatus::Signal(SignalType::SegFault));
    let res = run_stage_result(&config, &cmd, true, &out).unwrap();
    assert_eq!(res.status, StageStatus::UnrecoverableFailure);
    assert!(rendered(&res).contains("segmentation fault"));
}

#[test]
fn success_no_return_code() {
    let config = run_config("exec");
    let cmd = get_run_command(&config, "/ws", false);
    let out = ProcessOutput::from_exit_status(ExitStatus::Failure(1));
    let res = run_stage_result(&config, &cmd, true, &out).unwrap();
    assert_eq!(
        res.status,
        StageStatus::Continue {
            points_lost: PointQuantity::zero()
        }
    );
}

#[test]
fn wrong_return_code() {
    let mut config = run_config("exec");
    config.return_code = Some(ReturnCodeConfig {
        expected: 0,
        points: PointQuantity::FullPoints,
    });
    let cmd = get_run_command(&config, "/ws", false);
    let out = ProcessOutput::from_exit_status(ExitStatus::Failure(1));
    let res = run_stage_result(&config, &cmd, true, &out).unwrap();
    assert_eq!(
        res.status,
        StageStatus::Continue {
            points_lost: PointQuantity::FullPoints
        }
    );
    assert!(rendered(&res).contains("Expected 0, but found 1"));
}

#[test]
fn correct_return_code() {
    let mut config = run_config("exec");
    config.return_code = Some(ReturnCodeConfig {
        expected: 1,
        points: PointQuantity::FullPoints,
    });
    let cmd = get_run_command(&config, "/ws", false);
    let out = ProcessOutput::from_exit_status(ExitStatus::Failure(1));
    let res = run_stage_result(&config, &cmd, true, &out).unwrap();
    assert_eq!(
        res.status,
        StageStatus::Continue {
            points_lost: PointQuantity::zero()
        }
    );
}

// ---------------------------------------------------------------------------
// The compare stage.
// ---------------------------------------------------------------------------

fn one_compare(points: PointQuantity, show_output: bool) -> ComparesConfig {
    ComparesConfig {
        compares: vec![CompareConfig {
            expected: vec!["expected_stdout".to_string()],
            student_file: "stdout".to_string(),
            compare_type: CompareType::Diff,
            points,
            show_output,
        }],
    }
}

#[test]
fn file_not_found_fails_compare() {
    let config = one_compare(PointQuantity::Partial(Points::new(4)), true);
    let res = compare_stage_result(&config, &vec![CompareOutcome::MissingStudentFile]).unwrap();
    assert_eq!(
        res.status,
        StageStatus::Continue {
            points_lost: PointQuantity::Partial(Points::new(4))
        }
    );
    assert!(rendered(&res).contains("Could not find file"));
}

#[test]
fn diff_compare_pass() {
    let config = ComparesConfig {
        compares: vec![
            CompareConfig {
                expected: vec!["expected_stdout".to_string()],
                student_file: "stdout".to_string(),
                compare_type: CompareType::Diff,
                points: PointQuantity::Partial(Points::new(1)),
                show_output: true,
            },
            CompareConfig {
                expected: vec!["expected_stderr".to_string()],
                student_file: "stderr".to_string(),
                compare_type: CompareType::Diff,
                points: PointQuantity::Partial(Points::new(2)),
                show_output: true,
            },
        ],
    };
    let res = compare_stage_result(
        &config,
        &vec![CompareOutcome::Matched, CompareOutcome::Matched],
    )
    .unwrap();
    assert_eq!(
        res.status,
        StageStatus::Continue {
            points_lost: PointQuantity::zero()
        }
    );
}

#[test]
fn diff_compare_fail() {
    let config = ComparesConfig {
        compares: vec![
            CompareConfig {
                expected: vec!["expected_stdout".to_string()],
                student_file: "stdout".to_string(),
                compare_type: CompareType::Diff,
                points: PointQuantity::Partial(Points::new(1)),
                show_output: true,
            },
            CompareConfig {
                expected: vec!["expected_stderr".to_string()],
                student_file: "stderr".to_string(),
                compare_type: CompareType::Diff,
                points: PointQuantity::Partial(Points::new(2)),
                show_output: true,
            },
        ],
    };
    let res = compare_stage_result(
        &config,
        &vec![
            CompareOutcome::Matched,
            CompareOutcome::Mismatched {
                expected_bytes: Some(b"stderr here".to_vec()),
                student_bytes: Some(b"other".to_vec()),
            },
        ],
    )
    .unwrap();
    assert_eq!(
        res.status,
        StageStatus::Continue {
            points_lost: PointQuantity::Partial(Points::new(2))
        }
    );
    let text = rendered(&res);
    assert!(text.contains("Expected stderr"));
    assert!(text.contains("Actual stderr"));
    assert!(text.contains("01| stderr here"));
    assert!(text.contains("01| other"));
}

#[test]
fn diff_compare_absolute_fail() {
    let config = one_compare(PointQuantity::FullPoints, false);
    let res = compare_stage_result(
        &config,
        &vec![CompareOutcome::Mismatched {
            expected_bytes: None,
            student_bytes: None,
        }],
    )
    .unwrap();
    assert_eq!(
        res.status,
        StageStatus::Continue {
            points_lost: PointQuantity::FullPoints
        }
    );
    assert!(rendered(&res).contains("The instructor has chosen to keep this output hidden"));
}

#[test]
fn grep_compare_cannot_show_output() {
    let mut config = one_compare(PointQuantity::FullPoints, true);
    config.compares[0].compare_type = CompareType::Grep;
    let res = compare_stage_result(
        &config,
        &vec![CompareOutcome::Mismatched {
            expected_bytes: None,
            student_bytes: None,
        }],
    );
    assert!(res.is_err());
}

#[test]
fn diff_comparator_outcomes() {
    assert_eq!(diff_compare_outcome(&ExitStatus::Success), Ok(true));
    assert_eq!(diff_compare_outcome(&ExitStatus::Failure(1)), Ok(false));
    assert!(diff_compare_outcome(&ExitStatus::Failure(2)).is_err());
    assert!(diff_compare_outcome(&ExitStatus::Timeout(5)).is_err());
}

#[test]
fn diff_command_compares_bytes() {
    let cmd = diff_command("a.txt", "b.txt");
    assert_eq!(cmd.render(), "cmp a.txt b.txt");
}

#[test]
fn basenames() {
    assert_eq!(basename_of("/root/dir/file.txt"), "file.txt");
    assert_eq!(basename_of("file.txt"), "file.txt");
    assert_eq!(basename_of("dir/"), "");
}

// ---------------------------------------------------------------------------
// The memory-check stage.
// ---------------------------------------------------------------------------

#[test]
fn valgrind_cmd_reflects_inputs() {
    let config = run_config("noop");
    let cmd = gen_valgrind_cmd(&config, &Vec::new(), "/ws/noop", "/ws");
    assert_eq!(
        cmd.render(),
        "valgrind --log-file=valgrind.log --leak-check=yes --error-exitcode=125 \
         --malloc-fill=0xF0 --free-fill=0x0B -- /ws/noop"
    );

    let mut config = run_config("noop");
    config.stdin = Some("bar".to_string());
    let cmd = gen_valgrind_cmd(
        &config,
        &vec!["/data/static/static.supp".to_string()],
        "/ws/noop",
        "/ws",
    );
    assert_eq!(
        cmd.render(),
        "valgrind --log-file=valgrind.log --leak-check=yes --error-exitcode=125 \
         --malloc-fill=0xF0 --free-fill=0x0B --suppressions=/data/static/static.supp \
         -- /ws/noop < bar"
    );
    assert_eq!(cmd.timeout_ms, Some(120000));
}

#[test]
fn valgrind_doubles_run_timeout() {
    let mut config = run_config("noop");
    config.timeout_sec = Some(30);
    let cmd = gen_valgrind_cmd(&config, &Vec::new(), "/ws/noop", "/ws");
    assert_eq!(cmd.timeout_ms, Some(60000));
}

#[test]
fn read_validates_logfile() {
    assert!(process_valgrind_log("").is_err());
    assert!(process_valgrind_log("\n\n").is_err());
    assert!(process_valgrind_log("==1== ERROR SUMMARY: 0 errors").is_ok());
}

#[test]
fn read_hides_absolute_paths() {
    let log = "==77== Command: /root/genos_tests/infinite\n==77== by 0x1090F7: main (in /root/genos_tests/infinite)";
    let out = process_valgrind_log(log).unwrap();
    assert!(out.contains("Command: infinite"));
    assert!(out.contains("(in infinite)"));
    assert!(!out.contains("/root/genos_tests/infinite"));
    // text with no absolute path is left alone
    let plain = "==1== All heap blocks were freed -- no leaks are possible";
    assert_eq!(process_valgrind_log(plain).unwrap(), plain);
}

fn valgrind_config(points: PointQuantity) -> ValgrindConfig {
    ValgrindConfig {
        points,
        suppressions: None,
    }
}

const SAMPLE_LOG: &str = "==1== Memcheck, a memory error detector\n==1== ERROR SUMMARY: 0 errors from 0 contexts";

#[test]
fn run_validates_exit_code() {
    let config = valgrind_config(PointQuantity::FullPoints);
    let cmd = gen_valgrind_cmd(&run_config("seg"), &Vec::new(), "/ws/seg", "/ws");
    let ok = ProcessOutput::from_exit_status(ExitStatus::Failure(125));
    assert!(valgrind_stage_result(&config, &cmd, &ok, SAMPLE_LOG).is_ok());
    let ok = ProcessOutput::from_exit_status(ExitStatus::Failure(126));
    assert!(valgrind_stage_result(&config, &cmd, &ok, SAMPLE_LOG).is_ok());
    let bad = ProcessOutput::from_exit_status(ExitStatus::Failure(124));
    assert!(valgrind_stage_result(&config, &cmd, &bad, SAMPLE_LOG).is_err());
}

#[test]
fn run_asserts_log_nonempty() {
    let config = valgrind_config(PointQuantity::FullPoints);
    let cmd = gen_valgrind_cmd(&run_config("noop"), &Vec::new(), "/ws/noop", "/ws");
    let out = ProcessOutput::from_exit_status(ExitStatus::Success);
    assert!(valgrind_stage_result(&config, &cmd, &out, "").is_err());
    assert!(valgrind_stage_result(&config, &cmd, &out, "\n\n").is_err());
    assert!(valgrind_stage_result(&config, &cmd, &out, SAMPLE_LOG).is_ok());
}

#[test]
fn run_returns_expected_status() {
    let config = valgrind_config(PointQuantity::FullPoints);
    let cmd = gen_valgrind_cmd(&run_config("seg"), &Vec::new(), "/ws/seg", "/ws");

    let out = ProcessOutput::from_exit_status(ExitStatus::Success);
    let res = valgrind_stage_result(&config, &cmd, &out, SAMPLE_LOG).unwrap();
    assert_eq!(
        res.status,
        StageStatus::Continue {
            points_lost: PointQuantity::zero()
        }
    );

    for status in [
        ExitStatus::Failure(125),
        ExitStatus::Signal(SignalType::Abort),
        ExitStatus::Signal(SignalType::SegFault),
    ] {
        let out = ProcessOutput::from_exit_status(status);
        let res = valgrind_stage_result(&config, &cmd, &out, SAMPLE_LOG).unwrap();
        assert_eq!(
            res.status,
            StageStatus::Continue {
                points_lost: PointQuantity::FullPoints
            }
        );
    }
}

#[test]
fn run_outputs_expected_information() {
    let config = valgrind_config(PointQuantity::FullPoints);
    let cmd = gen_valgrind_cmd(&run_config("seg"), &Vec::new(), "/ws/seg", "/ws");

    let out = ProcessOutput::from_exit_status(ExitStatus::Signal(SignalType::SegFault));
    let text = rendered(&valgrind_stage_result(&config, &cmd, &out, SAMPLE_LOG).unwrap());
    assert!(text.contains("Valgrind"));
    assert!(text.contains("running valgrind"));
    assert!(text.contains("Output"));
    assert!(text.contains("Memcheck, a memory error detector"));
    assert!(text.contains("Your submission was killed by SIGSEGV!"));

    let out = ProcessOutput::from_exit_status(ExitStatus::Signal(SignalType::Abort));
    let text = rendered(&valgrind_stage_result(&config, &cmd, &out, SAMPLE_LOG).unwrap());
    assert!(text.contains("Your submission was killed by SIGABRT!"));

    let out = ProcessOutput::from_exit_status(ExitStatus::Timeout(120000));
    let text = rendered(&valgrind_stage_result(&config, &cmd, &out, SAMPLE_LOG).unwrap());
    assert!(text.contains("Your submission timed out after 120 seconds :("));
    // a timeout leaves the log out
    assert!(!text.contains("Memcheck, a memory error detector"));
}

#[test]
fn run_hides_command_paths() {
    let config = valgrind_config(PointQuantity::FullPoints);
    let cmd = gen_valgrind_cmd(
        &run_config("noop"),
        &vec!["/data/course/hw1/static/static.supp".to_string()],
        "/ws/noop",
        "/ws",
    );
    let out = ProcessOutput::from_exit_status(ExitStatus::Success);
    let text = rendered(&valgrind_stage_result(&config, &cmd, &out, SAMPLE_LOG).unwrap());
    assert!(text.contains("--suppressions=static.supp"));
    assert!(!text.contains("/data/course/hw1/static/static.supp"));
}

// ---------------------------------------------------------------------------
// The import stage.
// ---------------------------------------------------------------------------

#[test]
fn import_config_to_executor() {
    let config = ImportConfig::new(vec!["file1".to_string(), "file2".to_string()]);
    let stage = ImportFiles::new(config.files);
    let pairs = stage.import_pairs("/ws").unwrap();
    assert_eq!(
        pairs,
        vec![
            ("file1".to_string(), "/ws/file1".to_string()),
            ("file2".to_string(), "/ws/file2".to_string()),
        ]
    );
}

#[test]
fn copies_files() {
    let stage = ImportFiles::new(vec![
        "/tmp/a/file1.txt".to_string(),
        "/tmp/b/file2.txt".to_string(),
    ]);
    let pairs = stage.import_pairs("/ws").unwrap();
    assert_eq!(pairs[0].1, "/ws/file1.txt");
    assert_eq!(pairs[1].1, "/ws/file2.txt");
    assert!(ImportFiles::new(vec!["dir/".to_string()])
        .import_pairs("/ws")
        .is_err());
}

// ---------------------------------------------------------------------------
// The pipeline fold.
// ---------------------------------------------------------------------------

#[test]
fn genos_runs_all_on_success() {
    let stages = vec![
        StageResult::new_continue(PointQuantity::zero()),
        StageResult::new_continue(PointQuantity::zero()),
    ];
    let res = fold_stage_results(Points::new(4), stages);
    assert!(matches!(res.status, genos::test::TestStatus::Pass(_)));
    assert_eq!(res.status.score().received(), Points::new(4));
    assert_eq!(res.status.score().possible(), Points::new(4));
}

#[test]
fn genos_stops_on_first_fail() {
    let stages = vec![
        StageResult::new_continue(PointQuantity::zero()),
        StageResult::new_unrecoverable_failure(),
        StageResult::new_continue(PointQuantity::zero()),
    ];
    let res = fold_stage_results(Points::new(4), stages);
    assert!(matches!(res.status, genos::test::TestStatus::Fail(_)));
    assert_eq!(res.status.score().received(), Points::new(0));
}

#[test]
fn partial_deductions_sum() {
    let stages = vec![
        StageResult::new_continue(PointQuantity::zero()),
        StageResult::new_continue(PointQuantity::Partial(Points::new(1))),
        StageResult::new_continue(PointQuantity::Partial(Points::new(2))),
    ];
    let res = fold_stage_results(Points::new(4), stages);
    assert!(matches!(res.status, genos::test::TestStatus::Fail(_)));
    assert_eq!(res.status.score().received(), Points::new(1));
    assert_eq!(res.status.score().possible(), Points::new(4));
}

#[test]
fn deductions_clamp_at_zero() {
    let stages = vec![
        StageResult::new_continue(PointQuantity::Partial(Points::new(3))),
        StageResult::new_continue(PointQuantity::Partial(Points::new(3))),
    ];
    let res = fold_stage_results(Points::new(4), stages);
    assert_eq!(res.status.score().received(), Points::new(0));
}

// ---------------------------------------------------------------------------
// The orchestrator's decisions.
// ---------------------------------------------------------------------------

#[test]
fn workspace_ids() {
    assert_eq!(test_workspace_id(TestId::new(0)), "test_0");
    assert_eq!(test_workspace_id(TestId::new(17)), "test_17");
}

#[test]
fn system_error_result_reports() {
    let res = system_error_result(Points::new(1));
    assert!(matches!(res.status, genos::test::TestStatus::Fail(_)));
    assert_eq!(res.status.score().received(), Points::new(0));
    assert_eq!(res.status.score().possible(), Points::new(1));
    let text = res.output.transform(&Formatter::markdown());
    assert!(text.contains("System Error Occurred"));
    assert!(text.contains("Please report this to course staff"));
}

#[test]
fn collate_surfaces_first_error() {
    let outcomes = vec![
        RunOutcome {
            result: system_error_result(Points::new(1)),
            error: None,
        },
        RunOutcome {
            result: system_error_result(Points::new(1)),
            error: Some("first".to_string()),
        },
        RunOutcome {
            result: system_error_result(Points::new(1)),
            error: Some("second".to_string()),
        },
    ];
    assert_eq!(collate_results(outcomes).err().unwrap(), "first");
}

#[test]
fn collate_keeps_order_without_errors() {
    let outcomes = vec![
        RunOutcome {
            result: fold_stage_results(Points::new(1), Vec::new()),
            error: None,
        },
        RunOutcome {
            result: fold_stage_results(Points::new(2), Vec::new()),
            error: None,
        },
    ];
    let results = collate_results(outcomes).unwrap();
    assert_eq!(results.len(), 2);
    assert_eq!(results[0].status.score().possible(), Points::new(1));
    assert_eq!(results[1].status.score().possible(), Points::new(2));
}

// ---------------------------------------------------------------------------
// Configuration checks.
// ---------------------------------------------------------------------------

fn test_config(
    total: Points,
    return_points: Option<PointQuantity>,
    compare_points: Vec<PointQuantity>,
) -> TestConfig {
    let mut run = run_config("exec/bin");
    run.return_code = return_points.map(|points| ReturnCodeConfig {
        expected: 3,
        points,
    });
    let compare_files = if compare_points.is_empty() {
        None
    } else {
        Some(ComparesConfig {
            compares: compare_points
                .into_iter()
                .map(|points| CompareConfig {
                    expected: vec!["expected".to_string()],
                    student_file: "student".to_string(),
                    compare_type: CompareType::Diff,
                    points,
                    show_output: false,
                })
                .collect(),
        })
    };
    TestConfig {
        description: TestDescription {
            name: "test 1".to_string(),
            description: "test 1".to_string(),
            test_id: TestId::new(1),
            total_points: total,
            visibility: Visibility::Hidden,
            tags: None,
        },
        test_type: TestType::Diff,
        compile: CompileConfig { make_args: None },
        run,
        compare_files,
        import_files: None,
        valgrind: None,
    }
}

#[test]
fn deserialize_testcase_config() {
    let config = test_config(
        Points::new(4),
        Some(PointQuantity::Partial(Points::parse("0.25").unwrap())),
        vec![
            PointQuantity::Partial(Points::parse("2.25").unwrap()),
            PointQuantity::Partial(Points::parse("1.5").unwrap()),
        ],
    );
    config.validate().unwrap();
}

#[test]
fn deserialize_test_config_points_dont_add_up_to_total() {
    let config = test_config(
        Points::new(4),
        Some(PointQuantity::Partial(Points::new(1))),
        vec![
            PointQuantity::Partial(Points::new(1)),
            PointQuantity::Partial(Points::new(1)),
        ],
    );
    assert!(matches!(
        config.validate(),
        Err(TestConfigValidationError::InvalidPointTotal { .. })
    ));
}

#[test]
fn deserialize_test_config_point_types_mixed() {
    let config = test_config(
        Points::new(4),
        Some(PointQuantity::FullPoints),
        vec![PointQuantity::Partial(Points::new(1))],
    );
    assert_eq!(
        config.validate(),
        Err(TestConfigValidationError::MixedPointQuantities)
    );
}

#[test]
fn all_full_points_config_is_valid() {
    let config = test_config(
        Points::new(4),
        Some(PointQuantity::FullPoints),
        vec![PointQuantity::FullPoints],
    );
    config.validate().unwrap();
}

// ---------------------------------------------------------------------------
// Pipelines put together from real stage results.
// ---------------------------------------------------------------------------

#[test]
fn compile_failure_stops_test() {
    let compile = compile_stage_result(ProcessOutput::new(
        ExitStatus::Failure(2),
        "oops",
        "nope",
    ));
    let res = fold_stage_results(Points::new(3), vec![compile]);
    assert!(matches!(res.status, genos::test::TestStatus::Fail(_)));
    assert_eq!(res.status.score().received(), Points::new(0));
    assert_eq!(res.status.score().possible(), Points::new(3));
    assert!(res.output.contains("oops"));
    assert!(res.output.contains("nope"));
}

#[test]
fn partial_deductions_across_stages() {
    let compile = compile_stage_result(ProcessOutput::from_exit_status(ExitStatus::Success));
    let config = ComparesConfig {
        compares: vec![
            CompareConfig {
                expected: vec!["a_exp".to_string()],
                student_file: "a".to_string(),
                compare_type: CompareType::Diff,
                points: PointQuantity::Partial(Points::new(1)),
                show_output: false,
            },
            CompareConfig {
                expected: vec!["b_exp".to_string()],
                student_file: "b".to_string(),
                compare_type: CompareType::Diff,
                points: PointQuantity::Partial(Points::new(1)),
                show_output: false,
            },
            CompareConfig {
                expected: vec!["c_exp".to_string()],
                student_file: "c".to_string(),
                compare_type: CompareType::Diff,
                points: PointQuantity::Partial(Points::new(2)),
                show_output: false,
            },
        ],
    };
    let compares = compare_stage_result(
        &config,
        &vec![
            CompareOutcome::Matched,
            CompareOutcome::Mismatched {
                expected_bytes: None,
                student_bytes: None,
            },
            CompareOutcome::Mismatched {
                expected_bytes: None,
                student_bytes: None,
            },
        ],
    )
    .unwrap();
    let res = fold_stage_results(Points::new(4), vec![compile, compares]);
    assert!(matches!(res.status, genos::test::TestStatus::Fail(_)));
    assert_eq!(res.status.score().received(), Points::new(1));
    assert_eq!(res.status.score().possible(), Points::new(4));
    assert!(res.output.contains("Compare Output"));
    assert!(res.output.contains("Comparing b (diff)"));
    assert!(res.output.contains("Comparing c (diff)"));
}

#[test]
fn run_timeout_is_unrecoverable_in_pipeline() {
    let config = run_config("exec");
    let cmd = get_run_command(&config, "/ws", false);
    let out = ProcessOutput::from_exit_status(ExitStatus::Timeout(10));
    let run = run_stage_result(&config, &cmd, true, &out).unwrap();
    let res = fold_stage_results(Points::new(2), vec![run]);
    assert!(matches!(res.status, genos::test::TestStatus::Fail(_)));
    assert_eq!(res.status.score().received(), Points::new(0));
    assert!(res.output.contains("program timed out after 10ms"));
}

#[test]
fn output_contains_searches_notes() {
    let out = ProcessOutput::new(ExitStatus::Failure(1), "build words", "error words");
    let res = compile_stage_result(out);
    let output = res.output.unwrap();
    assert!(output.contains("build words"));
    assert!(output.contains("error words"));
    assert!(output.contains("Compile"));
    assert!(!output.contains("no such text"));
}

#[test]
fn filename_takes_basename() {
    assert_eq!(genos::fs::filename("/a/b/c.txt"), "c.txt");
    assert_eq!(genos::fs::filename("plain"), "plain");
}

#[test]
fn locator_error_messages() {
    assert_eq!(genos::fs::Error::NotFound.message(), "File not found");
    assert_eq!(
        genos::fs::Error::UnknownTestId.message(),
        "TestId not recognized"
    );
}

#[test]
fn test_dir_names_parse() {
    assert_eq!(parse_test_dir_name("test_12"), Some(12));
    assert_eq!(parse_test_dir_name("test_0"), Some(0));
    assert_eq!(parse_test_dir_name("test_1_2"), None);
    assert_eq!(parse_test_dir_name("static"), None);
    assert_eq!(parse_test_dir_name("test_abc"), None);
    assert_eq!(parse_test_dir_name("test_99999999999999999999"), None);
}

#[test]
fn resource_resolution_prefers_test_dir() {
    assert_eq!(
        resolve_test_resource(Some("t/f".to_string()), Some("s/f".to_string())),
        Ok("t/f".to_string())
    );
    assert_eq!(
        resolve_test_resource(None, Some("s/f".to_string())),
        Ok("s/f".to_string())
    );
    assert_eq!(
        resolve_test_resource(None, None),
        Err(genos::fs::Error::NotFound)
    );
}
