//! The interrupt flag: set when the user interrupts the run, read once
//! when the child has exited.

use std::sync::atomic::AtomicBool;
use std::sync::atomic::Ordering;
use std::sync::Arc;
use vstd::prelude::*;

verus! {

/// The error of the crate that delivers interrupts.
#[verifier::external_type_specification]
#[verifier::external_body]
pub struct ExHandlerError(ctrlc::Error);

/// Why interrupts cannot be watched for.
#[derive(Clone, Copy, Debug, PartialEq, Eq, Structural)]
pub enum WatchError {
    /// The system does not know the signal.
    NoSuchSignal,
    /// A handler for interrupts is already in place.
    MultipleHandlers,
    /// The system refused to put the handler in place.
    System,
}

/// One flag shared between the handler that sets it and the reader.
/// Its handles all speak of the same flag.
#[derive(Clone)]
pub struct InterruptMonitor {
    flag: Arc<AtomicBool>,
}

/// Calls `ctrlc::set_handler` with a handler that records the interrupt in
/// `monitor`'s flag and does nothing else. Nothing is claimed of the result.
#[verifier::external_body]
fn install_handler(monitor: &InterruptMonitor) -> (installed: Result<(), ctrlc::Error>) {
    let shared = monitor.clone();
    ctrlc::set_handler(move || shared.record())
}

/// Tells the variants of `ctrlc::Error` apart. Nothing is claimed of the result.
#[verifier::external_body]
fn classify(error: ctrlc::Error) -> (kind: WatchError) {
    match error {
        ctrlc::Error::NoSuchSignal(_) => WatchError::NoSuchSignal,
        ctrlc::Error::MultipleHandlers => WatchError::MultipleHandlers,
        ctrlc::Error::System(_) => WatchError::System,
    }
}

impl InterruptMonitor {
    /// A fresh flag, not set.
    pub fn new() -> (monitor: InterruptMonitor) {
        InterruptMonitor { flag: Arc::new(AtomicBool::new(false)) }
    }

    /// Sets the flag: a single atomic store, without lock or allocation.
    pub fn record(&self) {
        self.flag.store(true, Ordering::SeqCst);
    }

    /// Reads the flag: a single atomic load.
    pub fn was_interrupted(&self) -> (interrupted: bool) {
        self.flag.load(Ordering::SeqCst)
    }

    /// Has every interrupt from now on set the flag; `watch_outcome` tells what comes back.
    pub fn watch(&self) -> (watching: Result<(), WatchError>) {
        watch_outcome(install_handler(self))
    }
}

/// What watching comes to, given what putting the handler in place
/// returned: it succeeds exactly where the handler is in place, and fails
/// with the kind of the error otherwise.
pub fn watch_outcome(installed: Result<(), ctrlc::Error>) -> (watching: Result<(), WatchError>)
    ensures
        installed is Ok <==> watching is Ok,
{
    match installed {
        Ok(()) => Ok(()),
        Err(error) => Err(classify(error)),
    }
}

} // verus!
