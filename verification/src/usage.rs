//! What one run of a child process consumed.

use vstd::prelude::*;
use crate::timespan::TimeSpan;

verus! {

/// Bytes in one kibibyte.
pub const BYTES_PER_KB: u64 = 1024;

/// Processor time and memory that a child process used.
///
/// A memory figure of zero means that the figure is not known.
#[derive(Clone, Copy, Debug, PartialEq, Eq, Structural)]
pub struct ResourceUsage {
    /// Time spent in the process's own code.
    pub user_time: TimeSpan,
    /// Time the kernel spent on the process's behalf.
    pub system_time: TimeSpan,
    /// Largest memory size in kibibytes, or zero when unknown.
    pub max_memory: u64,
}

/// A resource usage as plain numbers.
pub struct UsageView {
    pub user_nanos: nat,
    pub system_nanos: nat,
    pub max_memory_kb: nat,
}

/// The usage that reports nothing: no processor time, memory unknown.
pub open spec fn no_usage() -> UsageView {
    UsageView { user_nanos: 0, system_nanos: 0, max_memory_kb: 0 }
}

impl View for ResourceUsage {
    type V = UsageView;

    open spec fn view(&self) -> UsageView {
        UsageView {
            user_nanos: self.user_time@,
            system_nanos: self.system_time@,
            max_memory_kb: self.max_memory as nat,
        }
    }
}

impl ResourceUsage {
    /// The usage that reports nothing, as a value to speak of in contracts.
    pub open spec fn nothing() -> ResourceUsage {
        ResourceUsage { user_time: TimeSpan::empty(), system_time: TimeSpan::empty(), max_memory: 0 }
    }

    /// The usage that reports nothing holds zero in every figure.
    pub proof fn lemma_nothing_view()
        ensures
            ResourceUsage::nothing()@ == no_usage(),
    {
        TimeSpan::lemma_empty_view();
    }

    /// The usage that reports nothing.
    pub fn none() -> (usage: ResourceUsage)
        ensures
            usage == ResourceUsage::nothing(),
            usage@ == no_usage(),
    {
        ResourceUsage { user_time: TimeSpan::zero(), system_time: TimeSpan::zero(), max_memory: 0 }
    }
}

impl Default for ResourceUsage {
    fn default() -> (usage: ResourceUsage)
        ensures
            usage == ResourceUsage::nothing(),
            usage@ == no_usage(),
    {
        ResourceUsage::none()
    }
}

} // verus!
