use signal_chaos::event::{JobControlEvent, ShutdownEvent, SignalEvent};
use signal_chaos::source::{ListenerPoll, RecvPoll, SignalHandler};
use std::task::{Context, Poll, Waker};
use std::time::Duration;
use tokio::signal::unix::{signal, SignalKind};

fn real_handler() -> SignalHandler {
    SignalHandler::new(|raw| signal(SignalKind::from_raw(raw))).expect("listeners install")
}

#[test]
fn noop_handler_is_exhausted_at_once_every_time() {
    let mut h = SignalHandler::noop();
    let mut cx = Context::from_waker(Waker::noop());
    for _ in 0..3 {
        assert_eq!(h.poll_recv(&mut cx), RecvPoll::Ready(None));
    }
}

#[test]
fn handler_registers_the_five_signals_in_order() {
    let seen = std::cell::RefCell::new(Vec::new());
    let rt = tokio::runtime::Runtime::new().unwrap();
    let _g = rt.enter();
    let h = SignalHandler::new(|raw| {
        seen.borrow_mut().push(raw);
        signal(SignalKind::from_raw(raw))
    });
    assert!(h.is_ok());
    assert_eq!(
        seen.into_inner(),
        vec![libc::SIGINT, libc::SIGHUP, libc::SIGTERM, libc::SIGTSTP, libc::SIGCONT]
    );
}

#[test]
fn handler_reports_first_registration_error() {
    let calls = std::cell::Cell::new(0);
    let h = SignalHandler::new(|_raw| {
        calls.set(calls.get() + 1);
        Err(std::io::Error::other("refused"))
    });
    let err = match h {
        Ok(_) => panic!("registration fails"),
        Err(e) => e,
    };
    assert_eq!(err.0.to_string(), "refused");
    assert_eq!(calls.get(), 1);
}

#[test]
fn real_handler_waits_without_signals() {
    let rt = tokio::runtime::Runtime::new().unwrap();
    let _g = rt.enter();
    let mut h = real_handler();
    let mut cx = Context::from_waker(Waker::noop());
    assert_eq!(h.poll_recv(&mut cx), RecvPoll::Pending);
}

#[test]
fn delivery_on_a_listener_yields_its_event() {
    let rt = tokio::runtime::Runtime::new().unwrap();
    let _g = rt.enter();
    let mut h = real_handler();
    let want = [
        SignalEvent::Shutdown(ShutdownEvent::Interrupt),
        SignalEvent::Shutdown(ShutdownEvent::Hangup),
        SignalEvent::Shutdown(ShutdownEvent::Term),
        SignalEvent::JobControl(JobControlEvent::Stop),
        SignalEvent::JobControl(JobControlEvent::Continue),
    ];
    for (k, e) in want.iter().enumerate() {
        assert_eq!(h.absorb(k, ListenerPoll::Delivered), Some(*e));
        assert_eq!(h.absorb(k, ListenerPoll::Pending), None);
    }
}

#[test]
fn exhausted_handler_yields_terminal_none_once_then_waits() {
    let rt = tokio::runtime::Runtime::new().unwrap();
    let _g = rt.enter();
    let mut h = real_handler();
    let mut cx = Context::from_waker(Waker::noop());
    for k in 0..5 {
        assert_eq!(h.absorb(k, ListenerPoll::Closed), None);
    }
    assert_eq!(h.poll_recv(&mut cx), RecvPoll::Ready(None));
    for _ in 0..3 {
        assert_eq!(h.poll_recv(&mut cx), RecvPoll::Pending);
    }
}

#[test]
fn partly_exhausted_handler_keeps_waiting() {
    let rt = tokio::runtime::Runtime::new().unwrap();
    let _g = rt.enter();
    let mut h = real_handler();
    let mut cx = Context::from_waker(Waker::noop());
    for k in 0..4 {
        assert_eq!(h.absorb(k, ListenerPoll::Closed), None);
    }
    assert_eq!(h.poll_recv(&mut cx), RecvPoll::Pending);
}

#[test]
fn real_handler_reports_hangup() {
    let rt = tokio::runtime::Runtime::new().unwrap();
    let _g = rt.enter();
    let mut h = real_handler();
    nix::sys::signal::raise(nix::sys::signal::Signal::SIGHUP).unwrap();
    let got = rt.block_on(async {
        tokio::time::timeout(
            Duration::from_secs(5),
            std::future::poll_fn(|cx| match h.poll_recv(cx) {
                RecvPoll::Ready(e) => Poll::Ready(e),
                RecvPoll::Pending => Poll::Pending,
            }),
        )
        .await
    });
    assert_eq!(got, Ok(Some(SignalEvent::Shutdown(ShutdownEvent::Hangup))));
}

#[test]
fn handler_stops_at_a_later_registration_error() {
    let rt = tokio::runtime::Runtime::new().unwrap();
    let _g = rt.enter();
    let seen = std::cell::RefCell::new(Vec::new());
    let h = SignalHandler::new(|raw| {
        seen.borrow_mut().push(raw);
        if raw == libc::SIGTERM {
            Err(std::io::Error::other("term refused"))
        } else {
            signal(SignalKind::from_raw(raw))
        }
    });
    match h {
        Ok(_) => panic!("registration fails"),
        Err(e) => assert_eq!(e.0.to_string(), "term refused"),
    }
    assert_eq!(seen.into_inner(), vec![libc::SIGINT, libc::SIGHUP, libc::SIGTERM]);
}
