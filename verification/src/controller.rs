//! The order of a run: create the child, wait for it, look at the
//! interrupt flag once, probe what the child consumed, report.
//!
//! The controller decides; its caller acts. Each action names the one
//! thing to do next, and the event that comes back says how it went.

use vstd::prelude::*;
use crate::error::TimeError;
use crate::outcome::ExecutionResult;
use crate::timespan::TimeSpan;
use crate::usage::{no_usage, ResourceUsage};

verus! {

/// Where a run stands.
#[derive(Clone, Copy, Debug, PartialEq, Eq)]
pub enum RunState {
    /// The child is being created.
    Spawning,
    /// The child runs; its exit is awaited.
    Waiting { child_id: u32 },
    /// The child has exited; the interrupt flag is being read.
    ReadingFlag { child_id: u32, code: Option<i32>, wall_time: TimeSpan },
    /// The child's consumption is being probed.
    Probing { code: Option<i32>, wall_time: TimeSpan, interrupted: bool },
    /// The run is over and its outcome known.
    Finished,
    /// The run could not take place.
    Failed,
}

/// What the caller reports back.
#[derive(Clone, Debug, PartialEq, Eq)]
pub enum RunEvent {
    /// The child was created.
    Spawned { child_id: u32 },
    /// The child could not be created.
    SpawnFailed { cause: String },
    /// The child's exit was seen, `wall_time` after the clock was started.
    Exited { code: Option<i32>, wall_time: TimeSpan },
    /// The interrupt flag was read.
    FlagRead { interrupted: bool },
    /// The probe returned.
    Probed { usage: ResourceUsage },
}

/// What the caller is to do next.
#[derive(Clone, Debug, PartialEq, Eq)]
pub enum RunAction {
    /// Start the clock, then create the child with the timer's own standard streams.
    Spawn,
    /// Wait for the child's exit, however long it takes, then read the clock.
    Wait { child_id: u32 },
    /// Read the interrupt flag.
    ReadFlag,
    /// Probe what the child consumed.
    Probe { child_id: u32 },
    /// Report this outcome.
    Finish(ExecutionResult),
    /// Give up with this failure.
    Fail(TimeError),
}

/// The step that `event` causes in `state`, if the event belongs there:
/// the state that follows and the action to take.
///
/// In portable mode the run ends when the flag has been read, with no
/// usage; otherwise the child is probed first.
pub open spec fn next_step(portable: bool, program: String, state: RunState, event: RunEvent)
    -> Option<(RunState, RunAction)> {
    match (state, event) {
        (RunState::Spawning, RunEvent::Spawned { child_id }) => Some(
            (RunState::Waiting { child_id }, RunAction::Wait { child_id }),
        ),
        (RunState::Spawning, RunEvent::SpawnFailed { cause }) => Some(
            (RunState::Failed, RunAction::Fail(TimeError::SpawnFailed { program, cause })),
        ),
        (RunState::Waiting { child_id }, RunEvent::Exited { code, wall_time }) => Some(
            (RunState::ReadingFlag { child_id, code, wall_time }, RunAction::ReadFlag),
        ),
        (RunState::ReadingFlag { child_id, code, wall_time }, RunEvent::FlagRead { interrupted }) => {
            if portable {
                Some(
                    (
                        RunState::Finished,
                        RunAction::Finish(
                            ExecutionResult::assembled(
                                code,
                                wall_time,
                                ResourceUsage::nothing(),
                                interrupted,
                            ),
                        ),
                    ),
                )
            } else {
                Some(
                    (
                        RunState::Probing { code, wall_time, interrupted },
                        RunAction::Probe { child_id },
                    ),
                )
            }
        },
        (RunState::Probing { code, wall_time, interrupted }, RunEvent::Probed { usage }) => Some(
            (
                RunState::Finished,
                RunAction::Finish(ExecutionResult::assembled(code, wall_time, usage, interrupted)),
            ),
        ),
        _ => None,
    }
}

/// The actions that a sequence of events causes from `state` on, and the
/// state reached, if every event belongs where it comes.
pub open spec fn run_from(portable: bool, program: String, state: RunState, events: Seq<RunEvent>)
    -> Option<(RunState, Seq<RunAction>)>
    decreases events.len(),
{
    if events.len() == 0 {
        Some((state, Seq::empty()))
    } else {
        match next_step(portable, program, state, events[0]) {
            Some((following, action)) => match run_from(
                portable,
                program,
                following,
                events.skip(1),
            ) {
                Some((last, actions)) => Some((last, seq![action] + actions)),
                None => None,
            },
            None => None,
        }
    }
}

/// The state in which every run begins, and its first action.
pub fn begin() -> (first: (RunState, RunAction))
    ensures
        first.0 == RunState::Spawning,
        first.1 == RunAction::Spawn,
{
    (RunState::Spawning, RunAction::Spawn)
}

/// Takes the step that `event` causes in `state`.
pub fn step(portable: bool, program: &String, state: RunState, event: RunEvent) -> (following:
    Option<(RunState, RunAction)>)
    ensures
        following == next_step(portable, *program, state, event),
{
    match state {
        RunState::Spawning => match event {
            RunEvent::Spawned { child_id } => Some(
                (RunState::Waiting { child_id }, RunAction::Wait { child_id }),
            ),
            RunEvent::SpawnFailed { cause } => Some(
                (
                    RunState::Failed,
                    RunAction::Fail(TimeError::SpawnFailed { program: program.clone(), cause }),
                ),
            ),
            _ => None,
        },
        RunState::Waiting { child_id } => match event {
            RunEvent::Exited { code, wall_time } => Some(
                (RunState::ReadingFlag { child_id, code, wall_time }, RunAction::ReadFlag),
            ),
            _ => None,
        },
        RunState::ReadingFlag { child_id, code, wall_time } => match event {
            RunEvent::FlagRead { interrupted } => {
                if portable {
                    let result = ExecutionResult::assemble(
                        code,
                        wall_time,
                        ResourceUsage::none(),
                        interrupted,
                    );
                    Some((RunState::Finished, RunAction::Finish(result)))
                } else {
                    Some(
                        (
                            RunState::Probing { code, wall_time, interrupted },
                            RunAction::Probe { child_id },
                        ),
                    )
                }
            },
            _ => None,
        },
        RunState::Probing { code, wall_time, interrupted } => match event {
            RunEvent::Probed { usage } => {
                let result = ExecutionResult::assemble(code, wall_time, usage, interrupted);
                Some((RunState::Finished, RunAction::Finish(result)))
            },
            _ => None,
        },
        RunState::Finished => None,
        RunState::Failed => None,
    }
}

/// A run with probing: the child is created and awaited, the flag is read
/// once and only after the exit was seen, the child that was created is
/// probed, and the outcome holds what the probe returned.
pub proof fn lemma_probed_run(
    program: String,
    child_id: u32,
    code: Option<i32>,
    wall_time: TimeSpan,
    interrupted: bool,
    usage: ResourceUsage,
)
    ensures
        run_from(
            false,
            program,
            RunState::Spawning,
            seq![
                RunEvent::Spawned { child_id },
                RunEvent::Exited { code, wall_time },
                RunEvent::FlagRead { interrupted },
                RunEvent::Probed { usage },
            ],
        ) == Some(
            (
                RunState::Finished,
                seq![
                    RunAction::Wait { child_id },
                    RunAction::ReadFlag,
                    RunAction::Probe { child_id },
                    RunAction::Finish(
                        ExecutionResult::assembled(code, wall_time, usage, interrupted),
                    ),
                ],
            ),
        ),
{
    let e0 = RunEvent::Spawned { child_id };
    let e1 = RunEvent::Exited { code, wall_time };
    let e2 = RunEvent::FlagRead { interrupted };
    let e3 = RunEvent::Probed { usage };
    let events = seq![e0, e1, e2, e3];
    let s1 = RunState::Waiting { child_id };
    let s2 = RunState::ReadingFlag { child_id, code, wall_time };
    let s3 = RunState::Probing { code, wall_time, interrupted };
    let result = ExecutionResult::assembled(code, wall_time, usage, interrupted);
    assert(events.skip(1) =~= seq![e1, e2, e3]);
    assert(seq![e1, e2, e3].skip(1) =~= seq![e2, e3]);
    assert(seq![e2, e3].skip(1) =~= seq![e3]);
    assert(seq![e3].skip(1) =~= Seq::<RunEvent>::empty());
    let done = Seq::<RunAction>::empty();
    let a3 = seq![RunAction::Finish(result)];
    let a2 = seq![RunAction::Probe { child_id }, RunAction::Finish(result)];
    let a1 = seq![RunAction::ReadFlag, RunAction::Probe { child_id }, RunAction::Finish(result)];
    let a0 = seq![
        RunAction::Wait { child_id },
        RunAction::ReadFlag,
        RunAction::Probe { child_id },
        RunAction::Finish(result),
    ];
    assert(seq![RunAction::Finish(result)] + done =~= a3);
    assert(seq![RunAction::Probe { child_id }] + a3 =~= a2);
    assert(seq![RunAction::ReadFlag] + a2 =~= a1);
    assert(seq![RunAction::Wait { child_id }] + a1 =~= a0);
    assert(run_from(false, program, RunState::Finished, Seq::<RunEvent>::empty()) == Some(
        (RunState::Finished, done),
    ));
    assert(seq![e3][0] == e3);
    assert(run_from(false, program, s3, seq![e3]) == Some((RunState::Finished, a3)));
    assert(seq![e2, e3][0] == e2);
    assert(run_from(false, program, s2, seq![e2, e3]) == Some((RunState::Finished, a2)));
    assert(seq![e1, e2, e3][0] == e1);
    assert(run_from(false, program, s1, seq![e1, e2, e3]) == Some((RunState::Finished, a1)));
    assert(events[0] == e0);
    assert(run_from(false, program, RunState::Spawning, events) == Some((RunState::Finished, a0)));
}

/// A portable run: the child is created and awaited, the flag is read once
/// and only after the exit was seen, nothing is probed, and the outcome
/// reports no processor time and no memory.
pub proof fn lemma_portable_run(
    program: String,
    child_id: u32,
    code: Option<i32>,
    wall_time: TimeSpan,
    interrupted: bool,
)
    ensures
        run_from(
            true,
            program,
            RunState::Spawning,
            seq![
                RunEvent::Spawned { child_id },
                RunEvent::Exited { code, wall_time },
                RunEvent::FlagRead { interrupted },
            ],
        ) == Some(
            (
                RunState::Finished,
                seq![
                    RunAction::Wait { child_id },
                    RunAction::ReadFlag,
                    RunAction::Finish(
                        ExecutionResult::assembled(
                            code,
                            wall_time,
                            ResourceUsage::nothing(),
                            interrupted,
                        ),
                    ),
                ],
            ),
        ),
        ExecutionResult::assembled(
            code,
            wall_time,
            ResourceUsage::nothing(),
            interrupted,
        ).resource@ == no_usage(),
        ExecutionResult::assembled(
            code,
            wall_time,
            ResourceUsage::nothing(),
            interrupted,
        ).wall_time == wall_time,
{
    ResourceUsage::lemma_nothing_view();
    let e0 = RunEvent::Spawned { child_id };
    let e1 = RunEvent::Exited { code, wall_time };
    let e2 = RunEvent::FlagRead { interrupted };
    let events = seq![e0, e1, e2];
    let s1 = RunState::Waiting { child_id };
    let s2 = RunState::ReadingFlag { child_id, code, wall_time };
    let result = ExecutionResult::assembled(code, wall_time, ResourceUsage::nothing(), interrupted);
    assert(events.skip(1) =~= seq![e1, e2]);
    assert(seq![e1, e2].skip(1) =~= seq![e2]);
    assert(seq![e2].skip(1) =~= Seq::<RunEvent>::empty());
    let done = Seq::<RunAction>::empty();
    let a2 = seq![RunAction::Finish(result)];
    let a1 = seq![RunAction::ReadFlag, RunAction::Finish(result)];
    let a0 = seq![RunAction::Wait { child_id }, RunAction::ReadFlag, RunAction::Finish(result)];
    assert(seq![RunAction::Finish(result)] + done =~= a2);
    assert(seq![RunAction::ReadFlag] + a2 =~= a1);
    assert(seq![RunAction::Wait { child_id }] + a1 =~= a0);
    assert(run_from(true, program, RunState::Finished, Seq::<RunEvent>::empty()) == Some(
        (RunState::Finished, done),
    ));
    assert(seq![e2][0] == e2);
    assert(run_from(true, program, s2, seq![e2]) == Some((RunState::Finished, a2)));
    assert(seq![e1, e2][0] == e1);
    assert(run_from(true, program, s1, seq![e1, e2]) == Some((RunState::Finished, a1)));
    assert(events[0] == e0);
    assert(run_from(true, program, RunState::Spawning, events) == Some((RunState::Finished, a0)));
}

/// A child that cannot be created ends the run at once, with a failure
/// that names the program and the cause.
pub proof fn lemma_spawn_failure_is_fatal(portable: bool, program: String, cause: String)
    ensures
        next_step(portable, program, RunState::Spawning, RunEvent::SpawnFailed { cause }) == Some(
            (RunState::Failed, RunAction::Fail(TimeError::SpawnFailed { program, cause })),
        ),
        forall|event: RunEvent|
            next_step(portable, program, RunState::Failed, event) is None && next_step(
                portable,
                program,
                RunState::Finished,
                event,
            ) is None,
{
}

/// The flag is read only once the child's exit has been seen, and the
/// probe is sent only after that reading, outside portable mode, to the
/// child that was created.
pub proof fn lemma_order_of_actions(
    portable: bool,
    program: String,
    state: RunState,
    event: RunEvent,
    following: RunState,
    action: RunAction,
)
    requires
        next_step(portable, program, state, event) == Some((following, action)),
    ensures
        action == RunAction::ReadFlag ==> state is Waiting && event is Exited,
        action is Probe ==> {
            &&& !portable
            &&& state is ReadingFlag
            &&& event is FlagRead
            &&& action->Probe_child_id == state->ReadingFlag_child_id
        },
        action is Finish ==> (portable && (state is ReadingFlag)) || (state is Probing),
        following is Probing ==> !portable,
        action is Finish ==> following is Finished,
        action !is Spawn,
{
}

} // verus!
