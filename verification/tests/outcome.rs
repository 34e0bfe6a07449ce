use timecmd::command::Command;
use timecmd::error::TimeError;
use timecmd::outcome::{push_status, ExecutionResult, ExitKind};
use timecmd::report::{render_report, render_standard, render_verbose};
use timecmd::timespan::TimeSpan;
use timecmd::usage::ResourceUsage;

fn millis(ms: u64) -> TimeSpan {
    TimeSpan::from_secs_nanos(ms / 1000, ((ms % 1000) * 1_000_000) as u32)
}

fn usage(user_ms: u64, system_ms: u64, max_memory: u64) -> ResourceUsage {
    ResourceUsage { user_time: millis(user_ms), system_time: millis(system_ms), max_memory }
}

fn command(words: &[&str]) -> Command {
    Command::new(words.iter().map(|w| w.to_string()).collect()).unwrap()
}

fn status_text(status: ExitKind) -> String {
    let mut out = String::new();
    push_status(&mut out, status);
    out
}

#[test]
fn the_exit_code_mirrors_the_child() {
    let mut code: i32 = 0;
    while code <= 255 {
        let result = ExecutionResult::assemble(Some(code), millis(10), ResourceUsage::none(), false);
        assert_eq!(result.exit_status, ExitKind::Code(code));
        assert_eq!(result.exit_code(), code);
        assert!(!result.was_interrupted);
        code += 1;
    }
    let result = ExecutionResult::assemble(Some(-1073741819), millis(10), ResourceUsage::none(), false);
    assert_eq!(result.exit_code(), -1073741819);
}

#[test]
fn an_interrupt_overrides_the_exit_code() {
    for code in [Some(0), Some(1), Some(255), None] {
        let result = ExecutionResult::assemble(code, millis(10), usage(1, 2, 3), true);
        assert_eq!(result.exit_status, ExitKind::Interrupted);
        assert_eq!(result.exit_code(), 130);
        assert!(result.was_interrupted);
        assert_eq!(status_text(result.exit_status), "interrupted");
    }
}

#[test]
fn a_signal_gives_exit_code_one() {
    let result = ExecutionResult::assemble(None, millis(10), ResourceUsage::none(), false);
    assert_eq!(result.exit_status, ExitKind::Signal);
    assert_eq!(result.exit_code(), 1);
}

#[test]
fn the_outcome_keeps_what_it_was_given() {
    let result = ExecutionResult::assemble(Some(3), millis(1234), usage(5, 6, 7), false);
    assert_eq!(result.wall_time, millis(1234));
    assert_eq!(result.resource, usage(5, 6, 7));
}

#[test]
fn status_texts() {
    assert_eq!(status_text(ExitKind::Code(0)), "0");
    assert_eq!(status_text(ExitKind::Code(42)), "42");
    assert_eq!(status_text(ExitKind::Code(-7)), "-7");
    assert_eq!(status_text(ExitKind::Code(i32::MAX)), "2147483647");
    assert_eq!(status_text(ExitKind::Code(i32::MIN)), "-2147483648");
    assert_eq!(status_text(ExitKind::Signal), "signal");
    assert_eq!(status_text(ExitKind::Interrupted), "interrupted");
}

#[test]
fn the_short_report_has_three_lines_behind_an_empty_one() {
    let result = ExecutionResult::assemble(Some(0), millis(1003), ResourceUsage::none(), false);
    assert_eq!(render_standard(&result), "\nreal\t1.003s\nuser\t0.000s\nsys\t0.000s\n");
    let result = ExecutionResult::assemble(Some(0), millis(61_500), usage(59_999, 120_000, 9), false);
    assert_eq!(render_standard(&result), "\nreal\t1m1.500s\nuser\t59.999s\nsys\t2m0.000s\n");
}

#[test]
fn the_short_report_of_a_sleeping_child() {
    let result = ExecutionResult::assemble(Some(0), millis(1003), ResourceUsage::none(), false);
    let text = render_report(&command(&["sleep", "1"]), &result, false);
    let lines: Vec<&str> = text.split('\n').collect();
    assert_eq!(lines, vec!["", "real\t1.003s", "user\t0.000s", "sys\t0.000s", ""]);
}

#[test]
fn the_long_report_names_every_figure() {
    let result = ExecutionResult::assemble(Some(2), millis(2000), usage(1000, 500, 2048), false);
    let text = render_verbose(&command(&["make", "-j", "4"]), &result);
    assert_eq!(
        text,
        "\nCommand:             make -j 4\
         \nExit status:         2\
         \nElapsed time:        2.000s\
         \nUser time:           1.000s\
         \nSystem time:         0.500s\
         \nCPU usage:           75.0%\
         \nPeak memory:         2.0MB\n"
    );
}

#[test]
fn the_long_report_leaves_unknown_memory_out() {
    let result = ExecutionResult::assemble(None, millis(0), ResourceUsage::none(), false);
    let text = render_report(&command(&["true"]), &result, true);
    assert_eq!(
        text,
        "\nCommand:             true\
         \nExit status:         signal\
         \nElapsed time:        0.000s\
         \nUser time:           0.000s\
         \nSystem time:         0.000s\
         \nCPU usage:           0.0%\n"
    );
}

#[test]
fn the_long_report_of_an_interrupted_run() {
    let result = ExecutionResult::assemble(Some(0), millis(500), usage(10, 0, 0), true);
    let text = render_report(&command(&["sleep", "60"]), &result, true);
    assert!(text.contains("\nExit status:         interrupted\n"));
    assert!(text.contains("\nCPU usage:           2.0%\n"));
}

#[test]
fn a_command_needs_a_program() {
    assert_eq!(Command::new(Vec::new()), None);
    let cmd = command(&["ls"]);
    assert_eq!(cmd.program(), "ls");
    assert_eq!(cmd.arguments(), Vec::<String>::new());
    assert_eq!(cmd.line(), "ls");
}

#[test]
fn a_command_keeps_its_arguments_as_given() {
    let cmd = command(&["grep", "-v", "--", "-o", "a b", ""]);
    assert_eq!(cmd.program(), "grep");
    assert_eq!(cmd.arguments(), vec!["-v", "--", "-o", "a b", ""]);
    assert_eq!(cmd.line(), "grep -v -- -o a b ");
}

#[test]
fn failures_say_what_failed_and_why() {
    let error = TimeError::SpawnFailed {
        program: "nosuch".to_string(),
        cause: "No such file or directory (os error 2)".to_string(),
    };
    assert_eq!(error.message(), "Failed to execute 'nosuch': No such file or directory (os error 2)");
    let error = TimeError::OutputWriteFailed {
        path: "/nowhere/report.txt".to_string(),
        cause: "Permission denied (os error 13)".to_string(),
    };
    assert_eq!(error.message(), "Failed to write '/nowhere/report.txt': Permission denied (os error 13)");
}
