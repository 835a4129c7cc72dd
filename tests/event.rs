use signal_chaos::event::{interrupt_sig, JobControlEvent, ShutdownEvent, SignalEvent};

fn all_events() -> Vec<SignalEvent> {
    vec![
        SignalEvent::Shutdown(ShutdownEvent::Interrupt),
        SignalEvent::Shutdown(ShutdownEvent::Hangup),
        SignalEvent::Shutdown(ShutdownEvent::Term),
        SignalEvent::JobControl(JobControlEvent::Stop),
        SignalEvent::JobControl(JobControlEvent::Continue),
    ]
}

#[test]
fn as_sig_matches_libc() {
    assert_eq!(SignalEvent::Shutdown(ShutdownEvent::Interrupt).as_sig(), libc::SIGINT);
    assert_eq!(SignalEvent::Shutdown(ShutdownEvent::Hangup).as_sig(), libc::SIGHUP);
    assert_eq!(SignalEvent::Shutdown(ShutdownEvent::Term).as_sig(), libc::SIGTERM);
    assert_eq!(SignalEvent::JobControl(JobControlEvent::Stop).as_sig(), libc::SIGSTOP);
    assert_eq!(SignalEvent::JobControl(JobControlEvent::Continue).as_sig(), libc::SIGCONT);
}

#[test]
fn as_sig_exact_values() {
    assert_eq!(SignalEvent::Shutdown(ShutdownEvent::Interrupt).as_sig(), 2);
    assert_eq!(SignalEvent::Shutdown(ShutdownEvent::Hangup).as_sig(), 1);
    assert_eq!(SignalEvent::Shutdown(ShutdownEvent::Term).as_sig(), 15);
    assert_eq!(interrupt_sig(), 2);
}

#[test]
fn as_sig_distinct_for_distinct_events() {
    let evs = all_events();
    for (i, a) in evs.iter().enumerate() {
        for (j, b) in evs.iter().enumerate() {
            assert_eq!(a.as_sig() == b.as_sig(), i == j);
        }
    }
}
