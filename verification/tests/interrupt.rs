use timecmd::interrupt::{watch_outcome, InterruptMonitor, WatchError};

#[test]
fn a_fresh_flag_is_not_set() {
    let monitor = InterruptMonitor::new();
    assert!(!monitor.was_interrupted());
    assert!(!monitor.was_interrupted());
}

#[test]
fn a_recorded_interrupt_stays_recorded() {
    let monitor = InterruptMonitor::new();
    monitor.record();
    assert!(monitor.was_interrupted());
    monitor.record();
    assert!(monitor.was_interrupted());
}

#[test]
fn every_handle_speaks_of_the_same_flag() {
    let monitor = InterruptMonitor::new();
    let other = monitor.clone();
    assert!(!other.was_interrupted());
    monitor.record();
    assert!(other.was_interrupted());
    let unrelated = InterruptMonitor::new();
    assert!(!unrelated.was_interrupted());
}

#[test]
fn only_one_handler_can_be_in_place() {
    let monitor = InterruptMonitor::new();
    assert_eq!(monitor.watch(), Ok(()));
    assert!(!monitor.was_interrupted());
    let second = InterruptMonitor::new();
    assert_eq!(second.watch(), Err(WatchError::MultipleHandlers));
    assert_eq!(monitor.watch(), Err(WatchError::MultipleHandlers));
}

#[test]
fn watching_succeeds_where_the_handler_is_in_place() {
    assert_eq!(watch_outcome(Ok(())), Ok(()));
}

#[test]
fn watching_fails_with_the_kind_of_the_error() {
    assert_eq!(
        watch_outcome(Err(ctrlc::Error::MultipleHandlers)),
        Err(WatchError::MultipleHandlers)
    );
    let refused = std::io::Error::new(std::io::ErrorKind::Other, "refused");
    assert_eq!(watch_outcome(Err(ctrlc::Error::System(refused))), Err(WatchError::System));
    assert_eq!(
        watch_outcome(Err(ctrlc::Error::NoSuchSignal(ctrlc::SignalType::Ctrlc))),
        Err(WatchError::NoSuchSignal)
    );
}
