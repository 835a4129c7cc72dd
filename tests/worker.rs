use signal_chaos::wire::{sig_to_line_bs, MalformedMessage};
use signal_chaos::worker::{WorkerInput, WorkerLoop, WorkerState, WORKER_TIMEOUT_SECS};

#[test]
fn worker_times_out_without_messages() {
    let mut w = WorkerLoop::new(2);
    for _ in 0..10 {
        assert_eq!(w.step(&WorkerInput::EndOfStream), WorkerState::Listening);
    }
    assert!(!w.is_finished());
    assert_eq!(w.step(&WorkerInput::Deadline), WorkerState::TimedOut);
    assert!(w.is_finished());
    assert_eq!(WORKER_TIMEOUT_SECS, 10);
}

#[test]
fn worker_ignores_other_signals_then_matches() {
    let mut w = WorkerLoop::new(2);
    assert_eq!(w.step(&WorkerInput::Line(sig_to_line_bs(1))), WorkerState::Listening);
    assert_eq!(w.step(&WorkerInput::Line(sig_to_line_bs(15))), WorkerState::Listening);
    assert_eq!(w.step(&WorkerInput::Line(sig_to_line_bs(2))), WorkerState::Matched);
    assert_eq!(w.step(&WorkerInput::Deadline), WorkerState::Matched);
}

#[test]
fn worker_fails_on_short_record() {
    let mut w = WorkerLoop::new(2);
    assert_eq!(
        w.step(&WorkerInput::Line(vec![2, b'\n'])),
        WorkerState::Failed(MalformedMessage { len: 2 })
    );
    assert_eq!(w.step(&WorkerInput::Line(sig_to_line_bs(2))), WorkerState::Failed(MalformedMessage { len: 2 }));
}
