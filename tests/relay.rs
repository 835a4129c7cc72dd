use signal_chaos::event::{JobControlEvent, ShutdownEvent, SignalEvent};
use signal_chaos::relay::{
    ForwardPolicy, Relay, RelayAction, RelayInput, Supervisor, SupervisorAction, SupervisorInput,
    TargetGroup,
};
use signal_chaos::wire::read_sig;
use signal_chaos::worker::{WorkerInput, WorkerLoop, WorkerState};
use tokio::sync::broadcast;

const INT: SignalEvent = SignalEvent::Shutdown(ShutdownEvent::Interrupt);
const HUP: SignalEvent = SignalEvent::Shutdown(ShutdownEvent::Hangup);
const STOP: SignalEvent = SignalEvent::JobControl(JobControlEvent::Stop);

#[test]
fn relay_publishes_every_event_until_cancelled() {
    let mut r = Relay::new();
    assert!(r.polls_source());
    assert_eq!(r.step(RelayInput::Source(Some(HUP))), RelayAction::Publish(HUP));
    assert_eq!(r.step(RelayInput::Source(Some(HUP))), RelayAction::Publish(HUP));
    assert_eq!(r.step(RelayInput::Source(None)), RelayAction::Idle);
    assert!(!r.polls_source());
    assert_eq!(r.step(RelayInput::Source(Some(INT))), RelayAction::Publish(INT));
    assert_eq!(r.step(RelayInput::Cancelled), RelayAction::Exit);
    assert_eq!(r.step(RelayInput::Source(Some(INT))), RelayAction::Exit);
}

#[test]
fn supervisor_relays_records() {
    let mut s = Supervisor::new(ForwardPolicy::Relay, 4242);
    match s.step(SupervisorInput::Event(STOP)) {
        SupervisorAction::Write(bs) => assert_eq!(read_sig(&bs), Ok(libc::SIGSTOP)),
        other => panic!("unexpected {other:?}"),
    }
    assert!(matches!(s.step(SupervisorInput::Lagged(3)), SupervisorAction::Nothing));
    assert!(s.bus_open);
    assert!(matches!(s.step(SupervisorInput::BusClosed), SupervisorAction::Nothing));
    assert!(!s.bus_open);
    assert!(matches!(s.step(SupervisorInput::WorkerExited), SupervisorAction::CancelAndExit));
}

#[test]
fn supervisor_aborts_and_reaps_on_failed_forward() {
    let mut s = Supervisor::new(ForwardPolicy::Relay, 4242);
    assert!(matches!(s.step(SupervisorInput::ForwardFailed), SupervisorAction::AbortAndReap));
    assert!(s.bus_open);
}

#[test]
fn supervisor_redelivers_to_chosen_group() {
    let mut own = Supervisor::new(ForwardPolicy::Redeliver(TargetGroup::Own), 4242);
    assert!(matches!(
        own.step(SupervisorInput::Event(HUP)),
        SupervisorAction::SignalGroup { pgid: 0, sig: 1 }
    ));
    let mut worker = Supervisor::new(ForwardPolicy::Redeliver(TargetGroup::Worker), 4242);
    assert!(matches!(
        worker.step(SupervisorInput::Event(INT)),
        SupervisorAction::SignalGroup { pgid: 4242, sig: 2 }
    ));
}

#[test]
fn bus_keeps_publish_order_for_one_subscriber() {
    let (tx, mut rx) = broadcast::channel(10);
    let sent = [INT, HUP, STOP, HUP, INT];
    for e in sent {
        tx.send(e).unwrap();
    }
    let mut sup = Supervisor::new(ForwardPolicy::Relay, 7);
    let mut got = Vec::new();
    for _ in 0..sent.len() {
        let e = rx.try_recv().unwrap();
        if let SupervisorAction::Write(bs) = sup.step(SupervisorInput::Event(e)) {
            got.push(read_sig(&bs).unwrap());
        }
    }
    let want: Vec<i32> = sent.iter().map(|e| e.as_sig()).collect();
    assert_eq!(got, want);
}

#[test]
fn bus_reports_lag_to_slow_subscriber() {
    let (tx, mut rx) = broadcast::channel(2);
    for e in [INT, HUP, STOP, HUP, INT] {
        tx.send(e).unwrap();
    }
    assert_eq!(rx.try_recv(), Err(broadcast::error::TryRecvError::Lagged(3)));
    assert_eq!(rx.try_recv(), Ok(HUP));
    assert_eq!(rx.try_recv(), Ok(INT));
}

#[test]
fn bus_without_subscribers_rejects_publish() {
    let (tx, rx) = broadcast::channel::<SignalEvent>(2);
    drop(rx);
    assert!(tx.send(INT).is_err());
    let mut late = tx.subscribe();
    assert!(late.try_recv().is_err());
}

#[test]
fn interrupt_flows_from_bus_to_worker_and_ends_the_run() {
    let (tx, mut rx) = broadcast::channel(10);
    let mut relay = Relay::new();
    let mut sup = Supervisor::new(ForwardPolicy::Relay, 99);
    let mut worker = WorkerLoop::new(libc::SIGINT);
    if let RelayAction::Publish(e) = relay.step(RelayInput::Source(Some(INT))) {
        tx.send(e).unwrap();
    }
    let e = rx.try_recv().unwrap();
    let line = match sup.step(SupervisorInput::Event(e)) {
        SupervisorAction::Write(bs) => bs,
        other => panic!("unexpected {other:?}"),
    };
    assert_eq!(worker.step(&WorkerInput::Line(line)), WorkerState::Matched);
    assert!(worker.is_finished());
    assert!(matches!(sup.step(SupervisorInput::WorkerExited), SupervisorAction::CancelAndExit));
    assert_eq!(relay.step(RelayInput::Cancelled), RelayAction::Exit);
}
