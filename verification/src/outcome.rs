//! How a run ended and what it cost.

use vstd::prelude::*;
use crate::digits::{decimal, push_decimal};
use crate::timespan::TimeSpan;
use crate::usage::ResourceUsage;

verus! {

/// The exit code of a run that the user interrupted.
pub const INTERRUPT_EXIT_CODE: i32 = 130;

/// The exit code of a run whose child a signal ended without an exit code.
pub const SIGNAL_EXIT_CODE: i32 = 1;

/// How the run ended, as it is reported.
#[derive(Clone, Copy, Debug, PartialEq, Eq, Structural)]
pub enum ExitKind {
    /// The child exited with this code.
    Code(i32),
    /// A signal ended the child; there is no exit code.
    Signal,
    /// The user interrupted the run.
    Interrupted,
}

/// The outcome of one run.
#[derive(Clone, Copy, Debug, PartialEq, Eq, Structural)]
pub struct ExecutionResult {
    /// How the run ended.
    pub exit_status: ExitKind,
    /// Real time from just before the child was created until its exit was seen.
    pub wall_time: TimeSpan,
    /// What the child consumed.
    pub resource: ResourceUsage,
    /// Whether an interrupt had been recorded when the child's exit was seen.
    pub was_interrupted: bool,
}

/// The reported end of a run: an interrupt overrides whatever the child
/// itself returned; otherwise it is the child's exit code, or the signal
/// where there is none.
pub open spec fn reported_status(code: Option<i32>, interrupted: bool) -> ExitKind {
    if interrupted {
        ExitKind::Interrupted
    } else {
        match code {
            Some(c) => ExitKind::Code(c),
            None => ExitKind::Signal,
        }
    }
}

/// The exit code with which the timer itself ends.
pub open spec fn exit_code_of(status: ExitKind) -> int {
    match status {
        ExitKind::Code(c) => c as int,
        ExitKind::Signal => SIGNAL_EXIT_CODE as int,
        ExitKind::Interrupted => INTERRUPT_EXIT_CODE as int,
    }
}

/// The decimal text of a whole number, with a minus sign where it is negative.
pub open spec fn signed_decimal(n: int) -> Seq<char> {
    if n < 0 {
        seq!['-'] + decimal((-n) as nat)
    } else {
        decimal(n as nat)
    }
}

/// The word `signal`.
pub open spec fn signal_word() -> Seq<char> {
    seq!['s', 'i', 'g', 'n', 'a', 'l']
}

/// The word `interrupted`.
pub open spec fn interrupted_word() -> Seq<char> {
    seq!['i', 'n', 't', 'e', 'r', 'r', 'u', 'p', 't', 'e', 'd']
}

/// The text of the exit-status field of a report.
pub open spec fn status_text(status: ExitKind) -> Seq<char> {
    match status {
        ExitKind::Code(c) => signed_decimal(c as int),
        ExitKind::Signal => signal_word(),
        ExitKind::Interrupted => interrupted_word(),
    }
}

impl ExecutionResult {
    /// A result is well formed when it reports an interrupt exactly if one
    /// was recorded.
    pub open spec fn wf(self) -> bool {
        self.was_interrupted <==> self.exit_status is Interrupted
    }

    /// The outcome of a run whose child returned `code`, if any, after
    /// `wall_time`, having consumed `resource`.
    pub open spec fn assembled(
        code: Option<i32>,
        wall_time: TimeSpan,
        resource: ResourceUsage,
        interrupted: bool,
    ) -> ExecutionResult {
        ExecutionResult {
            exit_status: reported_status(code, interrupted),
            wall_time,
            resource,
            was_interrupted: interrupted,
        }
    }

    /// Puts the outcome of a run together.
    pub fn assemble(
        code: Option<i32>,
        wall_time: TimeSpan,
        resource: ResourceUsage,
        interrupted: bool,
    ) -> (result: ExecutionResult)
        ensures
            result == ExecutionResult::assembled(code, wall_time, resource, interrupted),
            result.wf(),
    {
        let exit_status = if interrupted {
            ExitKind::Interrupted
        } else {
            match code {
                Some(c) => ExitKind::Code(c),
                None => ExitKind::Signal,
            }
        };
        ExecutionResult { exit_status, wall_time, resource, was_interrupted: interrupted }
    }

    /// The exit code with which the timer itself ends.
    pub fn exit_code(&self) -> (code: i32)
        ensures
            code == exit_code_of(self.exit_status),
    {
        match self.exit_status {
            ExitKind::Code(c) => c,
            ExitKind::Signal => SIGNAL_EXIT_CODE,
            ExitKind::Interrupted => INTERRUPT_EXIT_CODE,
        }
    }
}

/// Appends the text of the exit-status field.
pub fn push_status(out: &mut String, status: ExitKind)
    ensures
        final(out)@ == old(out)@ + status_text(status),
{
    match status {
        ExitKind::Code(c) => {
            if c < 0 {
                out.push('-');
                push_decimal(out, (-(c as i64)) as u128);
            } else {
                push_decimal(out, c as u128);
            }
        },
        ExitKind::Signal => {
            out.push('s');
            out.push('i');
            out.push('g');
            out.push('n');
            out.push('a');
            out.push('l');
        },
        ExitKind::Interrupted => {
            out.push('i');
            out.push('n');
            out.push('t');
            out.push('e');
            out.push('r');
            out.push('r');
            out.push('u');
            out.push('p');
            out.push('t');
            out.push('e');
            out.push('d');
        },
    }
    assert(out@ =~= old(out)@ + status_text(status));
}

/// A run that was not interrupted ends with the child's own exit code,
/// whatever that code is.
pub proof fn lemma_exit_code_mirrors_child(
    code: i32,
    wall_time: TimeSpan,
    resource: ResourceUsage,
)
    ensures
        exit_code_of(
            ExecutionResult::assembled(Some(code), wall_time, resource, false).exit_status,
        ) == code,
        status_text(ExecutionResult::assembled(Some(code), wall_time, resource, false).exit_status)
            == signed_decimal(code as int),
{
}

/// A child that a signal ended without an exit code gives exit code 1.
pub proof fn lemma_signal_gives_one(wall_time: TimeSpan, resource: ResourceUsage)
    ensures
        exit_code_of(ExecutionResult::assembled(None, wall_time, resource, false).exit_status) == 1,
{
}

/// An interrupted run ends with exit code 130 and reports `interrupted`,
/// whatever the child itself returned.
pub proof fn lemma_interrupt_overrides(
    code: Option<i32>,
    wall_time: TimeSpan,
    resource: ResourceUsage,
)
    ensures
        ExecutionResult::assembled(code, wall_time, resource, true).exit_status
            == ExitKind::Interrupted,
        exit_code_of(ExecutionResult::assembled(code, wall_time, resource, true).exit_status)
            == 130,
        status_text(ExecutionResult::assembled(code, wall_time, resource, true).exit_status)
            == interrupted_word(),
{
}

} // verus!
