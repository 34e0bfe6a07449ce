//! The two failures that end a run without a report.

use vstd::prelude::*;
use vstd::string::StringExecFns;

verus! {

/// Why a run could not be completed. Failures of the measurement itself
/// never show up here: they only leave figures at zero.
#[derive(Clone, Debug, PartialEq, Eq)]
pub enum TimeError {
    /// The child program could not be started.
    SpawnFailed { program: String, cause: String },
    /// The report could not be written to the file asked for.
    OutputWriteFailed { path: String, cause: String },
}

/// The message of a failure: what was attempted, on what, and the cause.
pub open spec fn error_text(error: TimeError) -> Seq<char> {
    match error {
        TimeError::SpawnFailed { program, cause } => "Failed to execute '"@ + program@ + "': "@
            + cause@,
        TimeError::OutputWriteFailed { path, cause } => "Failed to write '"@ + path@ + "': "@
            + cause@,
    }
}

impl TimeError {
    /// The message to show for this failure.
    pub fn message(&self) -> (text: String)
        ensures
            text@ == error_text(*self),
    {
        let mut text = String::new();
        match self {
            TimeError::SpawnFailed { program, cause } => {
                text.append("Failed to execute '");
                text.append(program.as_str());
                text.append("': ");
                text.append(cause.as_str());
            },
            TimeError::OutputWriteFailed { path, cause } => {
                text.append("Failed to write '");
                text.append(path.as_str());
                text.append("': ");
                text.append(cause.as_str());
            },
        }
        assert(text@ =~= error_text(*self));
        text
    }
}

} // verus!
