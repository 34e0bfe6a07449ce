//! Probing a process through process accounting: open the process, ask
//! for its times, ask for its memory counters, close it again.
//!
//! The probe decides; its caller makes the system calls. The two queries
//! do not depend on each other: what one of them returned is reported even
//! where the other failed.

use vstd::prelude::*;
use crate::timespan::{accounting_units, TimeSpan, NANOS_PER_ACCOUNTING_UNIT};
use crate::usage::{no_usage, ResourceUsage, BYTES_PER_KB};

verus! {

/// The access asked for when a process is opened.
#[derive(Clone, Copy, Debug, PartialEq, Eq, Structural)]
pub enum AccessLevel {
    /// Leave to query the process.
    QueryInformation,
    /// Leave to query a narrower set of facts, granted more readily.
    QueryLimitedInformation,
}

/// A 64-bit count of 100 ns units, in two halves.
#[derive(Clone, Copy, Debug, PartialEq, Eq, Structural)]
pub struct FileTime {
    pub low: u32,
    pub high: u32,
}

/// The four times that process accounting keeps of a process.
#[derive(Clone, Copy, Debug, PartialEq, Eq, Structural)]
pub struct ProcessTimes {
    pub creation: FileTime,
    pub exit: FileTime,
    pub kernel: FileTime,
    pub user: FileTime,
}

/// Where a probe stands.
#[derive(Clone, Copy, Debug, PartialEq, Eq, Structural)]
pub enum ProbeState {
    /// The process is being opened with this access; no handle is held.
    Opening(AccessLevel),
    /// A handle is held; the times are being asked for.
    QueryingTimes,
    /// A handle is held; the memory counters are being asked for.
    QueryingMemory { times: Option<ProcessTimes> },
    /// The handle is being closed.
    Closing { times: Option<ProcessTimes>, peak_bytes: Option<u64> },
    /// The probe is over; no handle is held.
    Finished,
}

/// What the caller reports back.
#[derive(Clone, Copy, Debug, PartialEq, Eq, Structural)]
pub enum ProbeEvent {
    /// The process could not be opened.
    OpenFailed,
    /// The process was opened; the caller holds its handle.
    Opened,
    /// The query for the times returned: the times, or nothing where it failed.
    TimesRead(Option<ProcessTimes>),
    /// The query for the memory counters returned: the peak working set in
    /// bytes, or nothing where it failed.
    MemoryRead(Option<u64>),
    /// The handle was closed.
    Closed,
}

/// What the caller is to do next.
#[derive(Clone, Copy, Debug, PartialEq, Eq, Structural)]
pub enum ProbeAction {
    /// Open the process with this access.
    Open(AccessLevel),
    /// Ask for the process times.
    QueryTimes,
    /// Ask for the memory counters.
    QueryMemory,
    /// Close the handle.
    Close,
    /// Hand this usage to whoever asked.
    Finish(ResourceUsage),
}

/// The span that a count of 100 ns units stands for.
pub open spec fn file_time_span(time: FileTime) -> TimeSpan {
    TimeSpan::of_nanos(accounting_units(time.low, time.high) * NANOS_PER_ACCOUNTING_UNIT as nat)
}

/// The usage that the two queries report together: user and kernel time
/// from the times, the peak working set in kibibytes from the memory
/// counters, and zero for what a failed query left open.
pub open spec fn accounting_usage(times: Option<ProcessTimes>, peak_bytes: Option<u64>)
    -> ResourceUsage {
    ResourceUsage {
        user_time: match times {
            Some(t) => file_time_span(t.user),
            None => TimeSpan::empty(),
        },
        system_time: match times {
            Some(t) => file_time_span(t.kernel),
            None => TimeSpan::empty(),
        },
        max_memory: match peak_bytes {
            Some(bytes) => bytes / BYTES_PER_KB,
            None => 0,
        },
    }
}

/// The step that `event` causes in `state`, if the event belongs there.
///
/// Opening is tried with full query access first and with limited query
/// access after that; when both are refused the probe reports nothing.
/// Once a handle is held both queries are made and the handle is closed
/// before anything is reported.
pub open spec fn next_probe_step(state: ProbeState, event: ProbeEvent) -> Option<
    (ProbeState, ProbeAction),
> {
    match (state, event) {
        (ProbeState::Opening(AccessLevel::QueryInformation), ProbeEvent::OpenFailed) => Some(
            (
                ProbeState::Opening(AccessLevel::QueryLimitedInformation),
                ProbeAction::Open(AccessLevel::QueryLimitedInformation),
            ),
        ),
        (ProbeState::Opening(AccessLevel::QueryLimitedInformation), ProbeEvent::OpenFailed) => Some(
            (ProbeState::Finished, ProbeAction::Finish(ResourceUsage::nothing())),
        ),
        (ProbeState::Opening(_), ProbeEvent::Opened) => Some(
            (ProbeState::QueryingTimes, ProbeAction::QueryTimes),
        ),
        (ProbeState::QueryingTimes, ProbeEvent::TimesRead(times)) => Some(
            (ProbeState::QueryingMemory { times }, ProbeAction::QueryMemory),
        ),
        (ProbeState::QueryingMemory { times }, ProbeEvent::MemoryRead(peak_bytes)) => Some(
            (ProbeState::Closing { times, peak_bytes }, ProbeAction::Close),
        ),
        (ProbeState::Closing { times, peak_bytes }, ProbeEvent::Closed) => Some(
            (ProbeState::Finished, ProbeAction::Finish(accounting_usage(times, peak_bytes))),
        ),
        _ => None,
    }
}

/// Whether the caller holds an open handle in `state`.
pub open spec fn holds_handle(state: ProbeState) -> bool {
    state is QueryingTimes || state is QueryingMemory
}

/// The span that a count of 100 ns units stands for.
pub fn span_of_file_time(time: FileTime) -> (span: TimeSpan)
    ensures
        span == file_time_span(time),
        span@ == accounting_units(time.low, time.high) * NANOS_PER_ACCOUNTING_UNIT,
{
    TimeSpan::from_accounting_halves(time.low, time.high)
}

/// The usage that the two queries report together.
pub fn usage_from_accounting(times: Option<ProcessTimes>, peak_bytes: Option<u64>) -> (usage:
    ResourceUsage)
    ensures
        usage == accounting_usage(times, peak_bytes),
{
    let max_memory: u64 = match peak_bytes {
        Some(bytes) => bytes / BYTES_PER_KB,
        None => 0,
    };
    match times {
        Some(t) => ResourceUsage {
            user_time: span_of_file_time(t.user),
            system_time: span_of_file_time(t.kernel),
            max_memory,
        },
        None => ResourceUsage { user_time: TimeSpan::zero(), system_time: TimeSpan::zero(), max_memory },
    }
}

/// The state in which every probe begins, and its first action.
pub fn begin_probe() -> (first: (ProbeState, ProbeAction))
    ensures
        first.0 == ProbeState::Opening(AccessLevel::QueryInformation),
        first.1 == ProbeAction::Open(AccessLevel::QueryInformation),
{
    (
        ProbeState::Opening(AccessLevel::QueryInformation),
        ProbeAction::Open(AccessLevel::QueryInformation),
    )
}

/// Takes the step that `event` causes in `state`.
pub fn probe_step(state: ProbeState, event: ProbeEvent) -> (following: Option<
    (ProbeState, ProbeAction),
>)
    ensures
        following == next_probe_step(state, event),
{
    match state {
        ProbeState::Opening(level) => match event {
            ProbeEvent::OpenFailed => match level {
                AccessLevel::QueryInformation => Some(
                    (
                        ProbeState::Opening(AccessLevel::QueryLimitedInformation),
                        ProbeAction::Open(AccessLevel::QueryLimitedInformation),
                    ),
                ),
                AccessLevel::QueryLimitedInformation => Some(
                    (ProbeState::Finished, ProbeAction::Finish(ResourceUsage::none())),
                ),
            },
            ProbeEvent::Opened => Some((ProbeState::QueryingTimes, ProbeAction::QueryTimes)),
            _ => None,
        },
        ProbeState::QueryingTimes => match event {
            ProbeEvent::TimesRead(times) => Some(
                (ProbeState::QueryingMemory { times }, ProbeAction::QueryMemory),
            ),
            _ => None,
        },
        ProbeState::QueryingMemory { times } => match event {
            ProbeEvent::MemoryRead(peak_bytes) => Some(
                (ProbeState::Closing { times, peak_bytes }, ProbeAction::Close),
            ),
            _ => None,
        },
        ProbeState::Closing { times, peak_bytes } => match event {
            ProbeEvent::Closed => Some(
                (
                    ProbeState::Finished,
                    ProbeAction::Finish(usage_from_accounting(times, peak_bytes)),
                ),
            ),
            _ => None,
        },
        ProbeState::Finished => None,
    }
}

/// What the two queries report, in plain numbers: each figure comes from
/// its own query alone, and is zero where that query failed.
pub proof fn lemma_queries_are_independent(times: Option<ProcessTimes>, peak_bytes: Option<u64>)
    ensures
        accounting_usage(times, peak_bytes)@.user_nanos == match times {
            Some(t) => accounting_units(t.user.low, t.user.high) * 100,
            None => 0,
        },
        accounting_usage(times, peak_bytes)@.system_nanos == match times {
            Some(t) => accounting_units(t.kernel.low, t.kernel.high) * 100,
            None => 0,
        },
        accounting_usage(times, peak_bytes)@.max_memory_kb == match peak_bytes {
            Some(bytes) => bytes as nat / 1024,
            None => 0,
        },
        accounting_usage(None, None)@ == no_usage(),
{
    TimeSpan::lemma_empty_view();
    if let Some(t) = times {
        TimeSpan::lemma_of_nanos_view(
            accounting_units(t.user.low, t.user.high) * NANOS_PER_ACCOUNTING_UNIT as nat,
        );
        TimeSpan::lemma_of_nanos_view(
            accounting_units(t.kernel.low, t.kernel.high) * NANOS_PER_ACCOUNTING_UNIT as nat,
        );
    }
}

/// A handle that was opened is closed before the probe ends: a handle
/// comes to be held only by a successful opening, a probe that holds one
/// does not end, and the way out of holding one is the action that closes
/// it. A probe ends only after that closing, or after the last opening was
/// refused.
pub proof fn lemma_handle_is_released(
    state: ProbeState,
    event: ProbeEvent,
    following: ProbeState,
    action: ProbeAction,
)
    requires
        next_probe_step(state, event) == Some((following, action)),
    ensures
        holds_handle(following) && !holds_handle(state) ==> state is Opening && event is Opened,
        holds_handle(state) ==> holds_handle(following) || (following is Closing && action
            == ProbeAction::Close),
        action == ProbeAction::Close ==> holds_handle(state) && following is Closing,
        following is Finished ==> (state is Closing && event is Closed) || (state
            == ProbeState::Opening(AccessLevel::QueryLimitedInformation) && event
            is OpenFailed),
        following is Finished <==> action is Finish,
        action is Open ==> state == ProbeState::Opening(AccessLevel::QueryInformation) && event
            is OpenFailed && action == ProbeAction::Open(AccessLevel::QueryLimitedInformation),
{
}

} // verus!
