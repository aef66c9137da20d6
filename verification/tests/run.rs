use system::{build, system, system_output, Argument, Invocation, Platform, Stream};

#[test]
fn status_run_inherits_all_streams() {
    let run = system(Platform::Posix, "echo Hello, world!");
    assert_eq!(run.command.program(), "sh");
    assert_eq!(
        run.command.args(),
        &[Argument::Word("-c".to_string()), Argument::Word("echo Hello, world!".to_string())]
    );
    assert_eq!(run.stdin, Stream::Inherited);
    assert_eq!(run.stdout, Stream::Inherited);
    assert_eq!(run.stderr, Stream::Inherited);
}

#[test]
fn output_run_captures_and_disconnects_input() {
    let run = system_output(Platform::Posix, "echo Hello, world!");
    assert_eq!(run.command.program(), "sh");
    assert_eq!(
        run.command.args(),
        &[Argument::Word("-c".to_string()), Argument::Word("echo Hello, world!".to_string())]
    );
    assert_eq!(run.stdin, Stream::Disconnected);
    assert_eq!(run.stdout, Stream::Captured);
    assert_eq!(run.stderr, Stream::Captured);
}

#[test]
fn windows_runs_pass_the_line_raw() {
    let line = "echo Hello, world! && echo 123";
    for run in [system(Platform::Windows, line), system_output(Platform::Windows, line)] {
        assert_eq!(run.command.program(), "cmd");
        assert_eq!(
            run.command.args(),
            &[Argument::Word("/c".to_string()), Argument::Raw(line.to_string())]
        );
    }
}

#[test]
fn both_runs_start_the_same_command() {
    for platform in [Platform::Posix, Platform::Windows] {
        let status = system(platform, "echo hi");
        let output = system_output(platform, "echo hi");
        assert_eq!(status.command, output.command);
        assert_eq!(status.command, build(platform, "echo hi"));
        assert_ne!(status, output);
    }
}

#[test]
fn runs_accept_the_empty_line() {
    assert_eq!(system(Platform::Posix, "").command.command(), "");
    assert_eq!(system_output(Platform::Windows, "").command.command(), "");
}

#[test]
fn a_built_command_can_be_run_with_streams_of_choice() {
    let run = Invocation {
        command: build(Platform::Posix, "echo Hello, world! && echo 123"),
        stdin: Stream::Inherited,
        stdout: Stream::Captured,
        stderr: Stream::Inherited,
    };
    assert_eq!(run.command.command(), "echo Hello, world! && echo 123");
    assert_eq!(run.stdout, Stream::Captured);
    assert_eq!(run.clone(), run);
}
