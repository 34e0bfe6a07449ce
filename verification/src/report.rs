//! The text of the report.

use vstd::prelude::*;
use vstd::string::StringExecFns;
use crate::command::{joined, Command};
use crate::format::{
    cpu_share_text,
    memory_text,
    push_cpu_share,
    push_memory,
    push_time,
    time_text,
};
use crate::outcome::{push_status, status_text, ExecutionResult};

verus! {

/// The short report: an empty line, then the real, user and system time,
/// each on a line of its own behind its name and a tab.
pub open spec fn standard_report(result: ExecutionResult) -> Seq<char> {
    "\nreal\t"@ + time_text(result.wall_time@) + "\nuser\t"@ + time_text(
        result.resource.user_time@,
    ) + "\nsys\t"@ + time_text(result.resource.system_time@) + "\n"@
}

/// The line about memory in the long report: present where the figure is known.
pub open spec fn memory_line(max_memory: u64) -> Seq<char> {
    if max_memory > 0 {
        "\nPeak memory:         "@ + memory_text(max_memory as nat)
    } else {
        Seq::empty()
    }
}

/// The long report: an empty line, then one labelled line each for the
/// command, how it ended, the elapsed, user and system time, the
/// processor's share of the elapsed time and, where it is known, the peak
/// memory.
pub open spec fn verbose_report(command: Seq<Seq<char>>, result: ExecutionResult) -> Seq<char> {
    "\nCommand:             "@ + joined(command) + "\nExit status:         "@ + status_text(
        result.exit_status,
    ) + "\nElapsed time:        "@ + time_text(result.wall_time@) + "\nUser time:           "@
        + time_text(result.resource.user_time@) + "\nSystem time:         "@ + time_text(
        result.resource.system_time@,
    ) + "\nCPU usage:           "@ + cpu_share_text(
        result.resource.user_time@,
        result.resource.system_time@,
        result.wall_time@,
    ) + memory_line(result.resource.max_memory) + "\n"@
}

/// The report in the form asked for.
pub open spec fn report_text(command: Seq<Seq<char>>, result: ExecutionResult, verbose: bool)
    -> Seq<char> {
    if verbose {
        verbose_report(command, result)
    } else {
        standard_report(result)
    }
}

/// Writes the short report.
pub fn render_standard(result: &ExecutionResult) -> (text: String)
    ensures
        text@ == standard_report(*result),
{
    let mut text = String::new();
    text.append("\nreal\t");
    push_time(&mut text, result.wall_time);
    text.append("\nuser\t");
    push_time(&mut text, result.resource.user_time);
    text.append("\nsys\t");
    push_time(&mut text, result.resource.system_time);
    text.append("\n");
    assert(text@ =~= standard_report(*result));
    text
}

/// Writes the long report.
pub fn render_verbose(command: &Command, result: &ExecutionResult) -> (text: String)
    ensures
        text@ == verbose_report(command@, *result),
{
    let mut text = String::new();
    text.append("\nCommand:             ");
    let line = command.line();
    text.append(line.as_str());
    text.append("\nExit status:         ");
    push_status(&mut text, result.exit_status);
    text.append("\nElapsed time:        ");
    push_time(&mut text, result.wall_time);
    text.append("\nUser time:           ");
    push_time(&mut text, result.resource.user_time);
    text.append("\nSystem time:         ");
    push_time(&mut text, result.resource.system_time);
    text.append("\nCPU usage:           ");
    push_cpu_share(
        &mut text,
        result.resource.user_time,
        result.resource.system_time,
        result.wall_time,
    );
    if result.resource.max_memory > 0 {
        text.append("\nPeak memory:         ");
        push_memory(&mut text, result.resource.max_memory);
    }
    text.append("\n");
    assert(text@ =~= verbose_report(command@, *result));
    text
}

/// Writes the report in the form asked for.
pub fn render_report(command: &Command, result: &ExecutionResult, verbose: bool) -> (text: String)
    ensures
        text@ == report_text(command@, *result, verbose),
{
    if verbose {
        render_verbose(command, result)
    } else {
        render_standard(result)
    }
}

} // verus!
