use genos::process::render_duration;
use genos::stage::run::{get_run_command, ReturnCodeConfig, RunConfig};
use genos::{Command, ExitStatus, PointQuantity, ProcessOutput, SignalType, StdinPipe};

fn base_run_config() -> RunConfig {
    RunConfig {
        args: Vec::new(),
        executable: String::new(),
        timeout_sec: None,
        stdout: None,
        stderr: None,
        stdin: None,
        return_code: None,
        disable_garbage_memory: None,
    }
}

#[test]
fn command_renders_program_and_args() {
    let cmd = Command::new("echo").arg("one").arg("two words").arg("three");
    assert_eq!(cmd.render(), "echo one \"two words\" three");
}

#[test]
fn command_renders_envs_and_pipes() {
    let cmd = Command::new("prog")
        .env("KEY", "val")
        .arg("-x")
        .stdin(StdinPipe::FromPath("in.txt".to_string()))
        .stdout("out.txt")
        .stderr("err.txt");
    assert_eq!(cmd.render(), "KEY=val prog -x < in.txt > out.txt 2> err.txt");
}

#[test]
fn command_renders_text_stdin_quoted() {
    let cmd = Command::new("cat").stdin(StdinPipe::Text("line one\nline two".to_string()));
    assert_eq!(cmd.render(), "cat < \"line one\\nline two\"");
}

#[test]
fn get_run_command_default() {
    let config = RunConfig {
        executable: "bin/exec".to_string(),
        ..base_run_config()
    };
    let cmd = get_run_command(&config, "/ws", false);
    let expected = Command::new("bin/exec");
    assert_eq!(cmd.render(), expected.render());
}

#[test]
fn get_run_command_pipes() {
    let config = RunConfig {
        executable: "bin/exec".to_string(),
        stderr: Some("stderr".to_string()),
        stdin: Some("stdin".to_string()),
        stdout: Some("stdout".to_string()),
        ..base_run_config()
    };
    let cmd = get_run_command(&config, "/ws", false);
    let expected = Command::new("bin/exec")
        .stdout("stdout")
        .stdin(StdinPipe::FromPath("stdin".to_string()))
        .stderr("stderr");
    assert_eq!(cmd.render(), expected.render());
}

#[test]
fn get_run_command_valgrind() {
    let config = RunConfig {
        executable: "bin/exec".to_string(),
        args: vec!["-t".to_string(), "-u".to_string()],
        ..base_run_config()
    };
    let cmd = get_run_command(&config, "/ws", true);
    let expected = Command::new("valgrind")
        .arg("--log-file=valgrind.log")
        .arg("--malloc-fill=0xFF")
        .arg("--free-fill=0xAA")
        .arg("bin/exec")
        .arg("-t")
        .arg("-u");
    assert_eq!(cmd.render(), expected.render());
}

#[test]
fn run_command_applies_timeout() {
    let config = RunConfig {
        executable: "exec".to_string(),
        timeout_sec: Some(30),
        ..base_run_config()
    };
    let cmd = get_run_command(&config, "/ws", false);
    assert_eq!(cmd.timeout_ms, Some(30000));
    let config = RunConfig {
        executable: "exec".to_string(),
        ..base_run_config()
    };
    let cmd = get_run_command(&config, "/ws", false);
    assert_eq!(cmd.timeout_ms, Some(60000));
}

#[test]
fn exit_status_flags() {
    assert!(ExitStatus::Success.is_ok());
    assert!(!ExitStatus::Failure(1).is_ok());
    assert!(ExitStatus::Success.completed());
    assert!(ExitStatus::Failure(3).completed());
    assert!(!ExitStatus::Timeout(10).completed());
    assert!(!ExitStatus::Signal(SignalType::Abort).completed());
}

#[test]
fn exit_status_codes() {
    assert_eq!(ExitStatus::Success.exit_code(), Some(0));
    assert_eq!(ExitStatus::Failure(246).exit_code(), Some(246));
    assert_eq!(ExitStatus::Timeout(10).exit_code(), None);
    assert_eq!(ExitStatus::Signal(SignalType::SegFault).exit_code(), Some(11));
    assert_eq!(ExitStatus::Signal(SignalType::Abort).exit_code(), Some(6));
}

#[test]
fn exit_status_from_parts() {
    assert_eq!(
        ExitStatus::from_parts(true, Some(0), None),
        Some(ExitStatus::Success)
    );
    assert_eq!(
        ExitStatus::from_parts(false, Some(246), None),
        Some(ExitStatus::Failure(246))
    );
    assert_eq!(
        ExitStatus::from_parts(false, None, Some(11)),
        Some(ExitStatus::Signal(SignalType::SegFault))
    );
    assert_eq!(
        ExitStatus::from_parts(false, None, Some(6)),
        Some(ExitStatus::Signal(SignalType::Abort))
    );
    assert_eq!(ExitStatus::from_parts(false, None, Some(9)), None);
    assert_eq!(ExitStatus::from_parts(false, None, None), None);
}

#[test]
fn duration_rendering() {
    assert_eq!(render_duration(10), "10ms");
    assert_eq!(render_duration(999), "999ms");
    assert_eq!(render_duration(1000), "1s");
    assert_eq!(render_duration(60000), "60s");
    assert_eq!(render_duration(1500), "1.5s");
    assert_eq!(render_duration(1230), "1.23s");
    assert_eq!(render_duration(1234), "1.234s");
    assert_eq!(render_duration(2005), "2.005s");
}

#[test]
fn process_output_carries_streams() {
    let out = ProcessOutput::new(ExitStatus::Success, "standard out", "standard err");
    assert_eq!(out.stdout, "standard out");
    assert_eq!(out.stderr, "standard err");
    let out = ProcessOutput::from_exit_status(ExitStatus::Failure(2));
    assert_eq!(out.stdout, "");
    assert_eq!(out.status, ExitStatus::Failure(2));
}

#[test]
fn return_code_config_carries_points() {
    let rc = ReturnCodeConfig {
        expected: 3,
        points: PointQuantity::FullPoints,
    };
    assert_eq!(rc.expected, 3);
    assert!(rc.points.is_full_points());
}
