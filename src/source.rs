//! The signal source: one OS listener per signal kind of interest, polled
//! together, with per-kind exhaustion tracking and a terminal latch.
use crate::event::{
    interrupt_sig, job_sig, sigcont, sighup, sigterm, sigtstp, JobControlEvent, ShutdownEvent,
    SignalEvent,
};
use std::task::{Context, Poll};
use tokio::signal::unix::Signal;
use vstd::prelude::*;

verus! {

#[verifier::external_type_specification]
#[verifier::external_body]
pub struct ExSignal(tokio::signal::unix::Signal);

#[verifier::external_type_specification]
#[verifier::external_body]
pub struct ExIoError(std::io::Error);

#[verifier::external_type_specification]
#[verifier::external_body]
pub struct ExContext<'a>(std::task::Context<'a>);

/// Relies on `tokio::signal::unix::Signal::poll_recv`: polls one listener and
/// registers the waker of `cx` when nothing is there yet.
#[verifier::external_body]
fn poll_signal(s: &mut Signal, cx: &mut Context) -> (r: ListenerPoll) {
    match s.poll_recv(cx) {
        Poll::Ready(Some(())) => ListenerPoll::Delivered,
        Poll::Ready(None) => ListenerPoll::Closed,
        Poll::Pending => ListenerPoll::Pending,
    }
}

/// What one poll of a single listener gave.
#[derive(Copy, Clone, Debug, PartialEq, Eq, Structural)]
pub enum ListenerPoll {
    /// A signal was delivered.
    Delivered,
    /// The listener's stream has ended for good.
    Closed,
    /// Nothing yet; the waker is registered.
    Pending,
}

/// What one poll of the whole source gave.
#[derive(Copy, Clone, Debug, PartialEq, Eq, Structural)]
pub enum RecvPoll {
    /// An event, or `None` once every listener is exhausted.
    Ready(Option<SignalEvent>),
    /// Nothing yet; the waker is registered with every live listener.
    Pending,
}

/// The state of a source. Its listeners come in the order interrupt,
/// hangup, term, terminal stop, continue; for each it holds the signal the
/// listener was registered for, whether its stream has ended, and what it
/// reported during the latest poll (`None`: not polled then). `latched`
/// says whether the terminal `None` has been handed out.
pub struct SourceView {
    pub done: Seq<bool>,
    pub sigs: Seq<i32>,
    pub reports: Seq<Option<ListenerPoll>>,
    pub latched: bool,
}

/// No listener has a report.
pub open spec fn no_reports() -> Seq<Option<ListenerPoll>> {
    seq![None, None, None, None, None]
}

/// The number of signal kinds a source listens to.
pub const N_KINDS: usize = 5;

/// The signals a source registers, in listener order.
pub open spec fn listened_sigs() -> Seq<i32> {
    seq![2, 1, 15, job_sig(2), job_sig(1)]
}

/// The event that a delivery on listener `k` stands for.
pub open spec fn event_at(k: int) -> SignalEvent {
    if k == 0 {
        SignalEvent::Shutdown(ShutdownEvent::Interrupt)
    } else if k == 1 {
        SignalEvent::Shutdown(ShutdownEvent::Hangup)
    } else if k == 2 {
        SignalEvent::Shutdown(ShutdownEvent::Term)
    } else if k == 3 {
        SignalEvent::JobControl(JobControlEvent::Stop)
    } else {
        SignalEvent::JobControl(JobControlEvent::Continue)
    }
}

/// The listener whose deliveries stand for `e`.
pub open spec fn kind_index(e: SignalEvent) -> int {
    match e {
        SignalEvent::Shutdown(ShutdownEvent::Interrupt) => 0,
        SignalEvent::Shutdown(ShutdownEvent::Hangup) => 1,
        SignalEvent::Shutdown(ShutdownEvent::Term) => 2,
        SignalEvent::JobControl(JobControlEvent::Stop) => 3,
        SignalEvent::JobControl(JobControlEvent::Continue) => 4,
    }
}

/// Every listener is exhausted.
pub open spec fn all_done(done: Seq<bool>) -> bool {
    forall|i: int| 0 <= i < done.len() ==> #[trigger] done[i]
}

/// A source's invariant: five listeners for the five signals, and the
/// terminal `None` handed out only once all of them are exhausted.
pub open spec fn view_wf(v: SourceView) -> bool {
    &&& v.done.len() == N_KINDS
    &&& v.sigs == listened_sigs()
    &&& v.reports.len() == N_KINDS
    &&& v.latched ==> all_done(v.done)
}

/// Registering a listener for `sig` through `register` may succeed.
pub open spec fn may_register<F: Fn(i32) -> Result<Signal, std::io::Error>>(register: F, sig: i32) -> bool {
    exists|s: Signal| call_ensures(register, (sig,), Ok::<Signal, std::io::Error>(s))
}

/// Registering a listener for `sig` through `register` may fail with `e`.
pub open spec fn may_refuse<F: Fn(i32) -> Result<Signal, std::io::Error>>(
    register: F,
    sig: i32,
    e: std::io::Error,
) -> bool {
    call_ensures(register, (sig,), Err::<Signal, std::io::Error>(e))
}

/// The state of a freshly created source.
pub open spec fn fresh_view() -> SourceView {
    SourceView {
        done: seq![false, false, false, false, false],
        sigs: listened_sigs(),
        reports: no_reports(),
        latched: false,
    }
}

/// What taking in report `p` of live listener `k` does: a delivery yields
/// that listener's event, an end of stream marks it exhausted, and nothing
/// else changes.
pub open spec fn absorb_step(
    pre: SourceView,
    k: int,
    p: ListenerPoll,
    post: SourceView,
    r: Option<SignalEvent>,
) -> bool {
    &&& post.sigs == pre.sigs
    &&& post.latched == pre.latched
    &&& post.reports == pre.reports
    &&& post.done == pre.done.update(k, p == ListenerPoll::Closed)
    &&& r == if p == ListenerPoll::Delivered {
        Some(event_at(k))
    } else {
        None
    }
}

/// The scan of one poll: listeners are polled in order, exhausted ones are
/// skipped, a polled listener is exhausted exactly when it reported an end
/// of stream; an event comes from the first live listener that reported a
/// delivery, and no later listener is polled; otherwise every live listener
/// was polled and none reported a delivery.
pub open spec fn scan(pre: SourceView, post: SourceView, r: RecvPoll) -> bool {
    &&& post.reports.len() == N_KINDS
    &&& forall|j: int| 0 <= j < N_KINDS && pre.done[j] ==> #[trigger] post.reports[j] is None
    &&& forall|j: int|
        0 <= j < N_KINDS && !pre.done[j] ==> post.done[j] == (#[trigger] post.reports[j] == Some(
            ListenerPoll::Closed,
        ))
    &&& match r {
        RecvPoll::Ready(Some(e)) => {
            &&& post.reports[kind_index(e)] == Some(ListenerPoll::Delivered)
            &&& forall|j: int|
                0 <= j < kind_index(e) && !pre.done[j] ==> #[trigger] post.reports[j] is Some
                    && post.reports[j] != Some(ListenerPoll::Delivered)
            &&& forall|j: int| kind_index(e) < j < N_KINDS ==> #[trigger] post.reports[j] is None
        },
        _ => forall|j: int|
            0 <= j < N_KINDS && !pre.done[j] ==> #[trigger] post.reports[j] is Some
                && post.reports[j] != Some(ListenerPoll::Delivered),
    }
}

/// What one poll may do, whatever the listeners report: the registered
/// signals stay; exhaustion flags are only ever set; once the terminal
/// `None` is out, polls stay pending and nothing changes; the terminal
/// `None` comes exactly when every listener is exhausted; an event comes
/// only from a live listener.
pub open spec fn poll_step(pre: SourceView, post: SourceView, r: RecvPoll) -> bool {
    &&& post.sigs == pre.sigs
    &&& post.done.len() == pre.done.len()
    &&& forall|i: int| 0 <= i < pre.done.len() && #[trigger] pre.done[i] ==> post.done[i]
    &&& if pre.latched {
        r == RecvPoll::Pending && post == pre
    } else if all_done(pre.done) {
        r == RecvPoll::Ready(None) && post.latched && post.done == pre.done && scan(pre, post, r)
    } else {
        scan(pre, post, r) && match r {
            RecvPoll::Ready(Some(e)) => !pre.done[kind_index(e)] && !post.done[kind_index(e)]
                && !post.latched,
            RecvPoll::Ready(None) => all_done(post.done) && post.latched,
            RecvPoll::Pending => !all_done(post.done) && !post.latched,
        }
    }
}

/// One listener, the signal it was registered for, and whether its stream
/// has ended.
#[derive(Debug)]
struct SignalWithDone {
    signal: Signal,
    raw: i32,
    done: bool,
}

impl SignalWithDone {
    /// A live listener for `raw`, from the outcome of registering it.
    fn new(raw: i32, registered: Result<Signal, std::io::Error>) -> (r: Result<
        SignalWithDone,
        std::io::Error,
    >)
        ensures
            r is Ok <==> registered is Ok,
            r is Ok ==> r->Ok_0.raw == raw && !r->Ok_0.done && r->Ok_0.signal == registered->Ok_0,
            r is Err ==> r->Err_0 == registered->Err_0,
    {
        match registered {
            Ok(signal) => Ok(SignalWithDone { signal, raw, done: false }),
            Err(e) => Err(e),
        }
    }

    /// Takes in what the listener for `kind` reported.
    fn absorb(&mut self, kind: SignalEvent, p: ListenerPoll) -> (r: Option<SignalEvent>)
        requires
            !old(self).done,
        ensures
            r == (if p == ListenerPoll::Delivered {
                Some(kind)
            } else {
                None
            }),
            final(self).done == (p == ListenerPoll::Closed),
            final(self).raw == old(self).raw,
    {
        match p {
            ListenerPoll::Delivered => Some(kind),
            ListenerPoll::Closed => {
                self.done = true;
                None
            },
            ListenerPoll::Pending => None,
        }
    }
}

/// Listeners for interrupt, hangup, terminate, terminal stop and continue.
struct Signals {
    sigint: SignalWithDone,
    sighup: SignalWithDone,
    sigterm: SignalWithDone,
    sigtstp: SignalWithDone,
    sigcont: SignalWithDone,
    reports: Ghost<Seq<Option<ListenerPoll>>>,
    latched: bool,
}

impl Signals {
    /// The listeners' signals and exhaustion flags in order, and the latch.
    closed spec fn view(&self) -> SourceView {
        SourceView {
            done: seq![
                self.sigint.done,
                self.sighup.done,
                self.sigterm.done,
                self.sigtstp.done,
                self.sigcont.done,
            ],
            sigs: seq![
                self.sigint.raw,
                self.sighup.raw,
                self.sigterm.raw,
                self.sigtstp.raw,
                self.sigcont.raw,
            ],
            reports: self.reports@,
            latched: self.latched,
        }
    }

    /// Registers, through `register`, one listener for each signal of
    /// interest, in order; stops at the first failure.
    fn new<F: Fn(i32) -> Result<Signal, std::io::Error>>(register: &F) -> (r: Result<
        Signals,
        std::io::Error,
    >)
        requires
            forall|x: i32| call_requires(*register, (x,)),
        ensures
            r is Ok ==> r->Ok_0@ == fresh_view(),
            r is Ok ==> forall|i: int| 0 <= i < N_KINDS ==> may_register(*register, #[trigger] listened_sigs()[i]),
            r is Err ==> exists|i: int| 0 <= i < N_KINDS && may_refuse(*register, #[trigger] listened_sigs()[i], r->Err_0)
                && forall|j: int| 0 <= j < i ==> may_register(*register, #[trigger] listened_sigs()[j]),
    {
        let ghost sigs = listened_sigs();
        let raw = interrupt_sig();
        let sigint = match SignalWithDone::new(raw, register(raw)) {
            Ok(l) => l,
            Err(e) => {
                assert(may_refuse(*register, sigs[0], e));
                return Err(e);
            },
        };
        assert(may_register(*register, sigs[0])) by {
            assert(call_ensures(*register, (sigs[0],), Ok::<Signal, std::io::Error>(sigint.signal)));
        }
        let raw = sighup();
        let sighup = match SignalWithDone::new(raw, register(raw)) {
            Ok(l) => l,
            Err(e) => {
                assert(may_refuse(*register, sigs[1], e));
                return Err(e);
            },
        };
        assert(may_register(*register, sigs[1])) by {
            assert(call_ensures(*register, (sigs[1],), Ok::<Signal, std::io::Error>(sighup.signal)));
        }
        let raw = sigterm();
        let sigterm = match SignalWithDone::new(raw, register(raw)) {
            Ok(l) => l,
            Err(e) => {
                assert(may_refuse(*register, sigs[2], e));
                return Err(e);
            },
        };
        assert(may_register(*register, sigs[2])) by {
            assert(call_ensures(*register, (sigs[2],), Ok::<Signal, std::io::Error>(sigterm.signal)));
        }
        let raw = sigtstp();
        let sigtstp = match SignalWithDone::new(raw, register(raw)) {
            Ok(l) => l,
            Err(e) => {
                assert(may_refuse(*register, sigs[3], e));
                return Err(e);
            },
        };
        assert(may_register(*register, sigs[3])) by {
            assert(call_ensures(*register, (sigs[3],), Ok::<Signal, std::io::Error>(sigtstp.signal)));
        }
        let raw = sigcont();
        let sigcont = match SignalWithDone::new(raw, register(raw)) {
            Ok(l) => l,
            Err(e) => {
                assert(may_refuse(*register, sigs[4], e));
                return Err(e);
            },
        };
        assert(may_register(*register, sigs[4])) by {
            assert(call_ensures(*register, (sigs[4],), Ok::<Signal, std::io::Error>(sigcont.signal)));
        }
        let r = Signals {
            sigint,
            sighup,
            sigterm,
            sigtstp,
            sigcont,
            reports: Ghost(no_reports()),
            latched: false,
        };
        assert(r@.done =~= fresh_view().done);
        assert(r@.sigs =~= fresh_view().sigs);
        Ok(r)
    }

    fn is_done(&self, k: usize) -> (r: bool)
        requires
            k < N_KINDS,
        ensures
            r == self@.done[k as int],
    {
        match k {
            0 => self.sigint.done,
            1 => self.sighup.done,
            2 => self.sigterm.done,
            3 => self.sigtstp.done,
            _ => self.sigcont.done,
        }
    }

    /// Polls listener `k`'s stream.
    fn listener_poll(&mut self, k: usize, cx: &mut Context) -> (r: ListenerPoll)
        requires
            k < N_KINDS,
        ensures
            final(self)@.done == old(self)@.done,
            final(self)@.sigs == old(self)@.sigs,
            final(self)@.latched == old(self)@.latched,
            final(self)@.reports == old(self)@.reports.update(k as int, Some(r)),
    {
        let p = match k {
            0 => poll_signal(&mut self.sigint.signal, cx),
            1 => poll_signal(&mut self.sighup.signal, cx),
            2 => poll_signal(&mut self.sigterm.signal, cx),
            3 => poll_signal(&mut self.sigtstp.signal, cx),
            _ => poll_signal(&mut self.sigcont.signal, cx),
        };
        self.reports = Ghost(self.reports@.update(k as int, Some(p)));
        p
    }

    /// Takes in report `p` of live listener `k`.
    fn absorb(&mut self, k: usize, p: ListenerPoll) -> (r: Option<SignalEvent>)
        requires
            k < N_KINDS,
            !old(self)@.done[k as int],
        ensures
            absorb_step(old(self)@, k as int, p, final(self)@, r),
    {
        let r = match k {
            0 => self.sigint.absorb(SignalEvent::Shutdown(ShutdownEvent::Interrupt), p),
            1 => self.sighup.absorb(SignalEvent::Shutdown(ShutdownEvent::Hangup), p),
            2 => self.sigterm.absorb(SignalEvent::Shutdown(ShutdownEvent::Term), p),
            3 => self.sigtstp.absorb(SignalEvent::JobControl(JobControlEvent::Stop), p),
            _ => self.sigcont.absorb(SignalEvent::JobControl(JobControlEvent::Continue), p),
        };
        assert(self@.done =~= old(self)@.done.update(k as int, p == ListenerPoll::Closed));
        assert(self@.sigs =~= old(self)@.sigs);
        r
    }

    /// Polls listener `k` unless it is exhausted, and takes in its report.
    fn try_listener(&mut self, k: usize, cx: &mut Context) -> (r: Option<SignalEvent>)
        requires
            k < N_KINDS,
            old(self)@.done.len() == N_KINDS,
            old(self)@.reports.len() == N_KINDS,
        ensures
            final(self)@.sigs == old(self)@.sigs,
            final(self)@.latched == old(self)@.latched,
            final(self)@.done.len() == N_KINDS,
            final(self)@.reports.len() == N_KINDS,
            forall|j: int|
                0 <= j < N_KINDS && j != k ==> final(self)@.done[j] == old(self)@.done[j]
                    && final(self)@.reports[j] == old(self)@.reports[j],
            old(self)@.done[k as int] ==> final(self)@.done[k as int] && r is None
                && final(self)@.reports[k as int] == old(self)@.reports[k as int],
            !old(self)@.done[k as int] ==> final(self)@.reports[k as int] is Some
                && final(self)@.done[k as int] == (final(self)@.reports[k as int] == Some(
                ListenerPoll::Closed,
            )) && r == (if final(self)@.reports[k as int] == Some(ListenerPoll::Delivered) {
                Some(event_at(k as int))
            } else {
                None
            }),
    {
        if self.is_done(k) {
            return None;
        }
        let p = self.listener_poll(k, cx);
        self.absorb(k, p)
    }

    fn all_exhausted(&self) -> (r: bool)
        ensures
            r == all_done(self@.done),
    {
        let r = self.sigint.done && self.sighup.done && self.sigterm.done && self.sigtstp.done
            && self.sigcont.done;
        assert(r ==> forall|i: int| 0 <= i < 5 ==> #[trigger] self@.done[i]);
        assert(!r ==> exists|i: int| 0 <= i < 5 && !#[trigger] self@.done[i]) by {
            if !self.sigint.done {
                assert(!self@.done[0]);
            } else if !self.sighup.done {
                assert(!self@.done[1]);
            } else if !self.sigterm.done {
                assert(!self@.done[2]);
            } else if !self.sigtstp.done {
                assert(!self@.done[3]);
            } else if !self.sigcont.done {
                assert(!self@.done[4]);
            }
        }
        r
    }

    /// Polls the live listeners in order and yields the first delivery.
    fn poll_recv(&mut self, cx: &mut Context) -> (r: RecvPoll)
        requires
            view_wf(old(self)@),
        ensures
            view_wf(final(self)@),
            poll_step(old(self)@, final(self)@, r),
    {
        if self.latched {
            return RecvPoll::Pending;
        }
        self.reports = Ghost(no_reports());
        let ghost pre = self@;
        assert(pre.reports =~= no_reports());
        let mut k: usize = 0;
        while k < N_KINDS
            invariant
                0 <= k <= N_KINDS,
                pre.done == old(self)@.done,
                pre.sigs == old(self)@.sigs,
                pre.reports == no_reports(),
                view_wf(old(self)@),
                !pre.latched,
                !old(self)@.latched,
                self@.sigs == pre.sigs,
                !self@.latched,
                self@.done.len() == N_KINDS,
                self@.reports.len() == N_KINDS,
                forall|j: int| 0 <= j < N_KINDS && pre.done[j] ==> self@.done[j],
                forall|j: int|
                    0 <= j < k && pre.done[j] ==> #[trigger] self@.reports[j] is None,
                forall|j: int|
                    0 <= j < k && !pre.done[j] ==> #[trigger] self@.reports[j] is Some
                        && self@.reports[j] != Some(ListenerPoll::Delivered) && self@.done[j] == (
                    self@.reports[j] == Some(ListenerPoll::Closed)),
                forall|j: int|
                    k <= j < N_KINDS ==> self@.done[j] == pre.done[j] && #[trigger] self@.reports[j]
                        is None,
            decreases N_KINDS - k,
        {
            match self.try_listener(k, cx) {
                Some(e) => {
                    return RecvPoll::Ready(Some(e));
                },
                None => {},
            }
            k = k + 1;
        }
        if self.all_exhausted() {
            self.latched = true;
            proof {
                if all_done(pre.done) {
                    assert(self@.done =~= pre.done);
                }
            }
            RecvPoll::Ready(None)
        } else {
            RecvPoll::Pending
        }
    }
}

/// The OS refused to register one of the listeners.
#[derive(Debug)]
pub struct SignalHandlerSetupError(pub std::io::Error);

/// The signal source handed to the rest of the program: the real listeners,
/// or nothing at all for contexts that must not install any.
pub struct SignalHandler {
    signals: Option<Signals>,
}

/// What one poll of a handler may do: a handler without listeners is
/// exhausted from the start and answers `None` at once, every time.
pub open spec fn handler_step(pre: Option<SourceView>, post: Option<SourceView>, r: RecvPoll) -> bool {
    match pre {
        None => post is None && r == RecvPoll::Ready(None),
        Some(v) => post is Some && poll_step(v, post->Some_0, r),
    }
}

impl SignalHandler {
    /// The listeners' state, or `None` for the handler that does nothing.
    pub closed spec fn view(&self) -> Option<SourceView> {
        match self.signals {
            Some(s) => Some(s@),
            None => None,
        }
    }

    /// The handler's invariant.
    pub open spec fn wf(&self) -> bool {
        match self@ {
            Some(v) => view_wf(v),
            None => true,
        }
    }

    /// Installs a listener for each of interrupt, hangup, terminate,
    /// terminal stop and continue, in that order, by calling `register` with
    /// the signal's identifier; fails with the first registration error.
    pub fn new<F: Fn(i32) -> Result<Signal, std::io::Error>>(register: F) -> (r: Result<
        Self,
        SignalHandlerSetupError,
    >)
        requires
            forall|x: i32| call_requires(register, (x,)),
        ensures
            r is Ok ==> r->Ok_0@ == Some(fresh_view()) && r->Ok_0.wf(),
            r is Ok ==> forall|i: int| 0 <= i < N_KINDS ==> may_register(register, #[trigger] listened_sigs()[i]),
            r is Err ==> exists|i: int| 0 <= i < N_KINDS && may_refuse(register, #[trigger] listened_sigs()[i], r->Err_0.0)
                && forall|j: int| 0 <= j < i ==> may_register(register, #[trigger] listened_sigs()[j]),
    {
        match Signals::new(&register) {
            Ok(signals) => Ok(Self { signals: Some(signals) }),
            Err(e) => Err(SignalHandlerSetupError(e)),
        }
    }

    /// A handler that installs nothing and never yields an event.
    pub fn noop() -> (r: Self)
        ensures
            r@ is None,
            r.wf(),
    {
        Self { signals: None }
    }

    /// Takes in report `p` of live listener `k` (in the order interrupt,
    /// hangup, term, terminal stop, continue): a delivery yields that
    /// listener's event; an end of stream marks it exhausted.
    pub fn absorb(&mut self, k: usize, p: ListenerPoll) -> (r: Option<SignalEvent>)
        requires
            old(self).wf(),
            old(self)@ is Some,
            k < N_KINDS,
            !old(self)@->Some_0.done[k as int],
        ensures
            final(self).wf(),
            final(self)@ is Some,
            absorb_step(old(self)@->Some_0, k as int, p, final(self)@->Some_0, r),
    {
        match &mut self.signals {
            Some(signals) => signals.absorb(k, p),
            None => None,
        }
    }

    /// Polls for the next event; `Ready(None)` once no listener is left.
    pub fn poll_recv(&mut self, cx: &mut Context) -> (r: RecvPoll)
        requires
            old(self).wf(),
        ensures
            final(self).wf(),
            handler_step(old(self)@, final(self)@, r),
    {
        match &mut self.signals {
            Some(signals) => signals.poll_recv(cx),
            None => RecvPoll::Ready(None),
        }
    }
}
proof fn lemma_exhaustion_persists(states: Seq<SourceView>, results: Seq<RecvPoll>, i: int)
    requires
        states.len() == results.len() + 1,
        all_done(states[0].done),
        forall|j: int| 0 <= j < results.len() ==> poll_step(states[j], states[j + 1], #[trigger] results[j]),
        0 <= i < states.len(),
    ensures
        all_done(states[i].done),
        i > 0 ==> states[i].latched,
    decreases i,
{
    if i > 0 {
        lemma_exhaustion_persists(states, results, i - 1);
        assert(poll_step(states[i - 1], states[i], results[i - 1]));
    }
}

/// Once every listener is exhausted, no poll ever yields an event again:
/// the first poll after that yields the terminal `None` (unless it was
/// already handed out) and every later one stays pending, without spinning.
pub proof fn lemma_exhaustion_terminal(states: Seq<SourceView>, results: Seq<RecvPoll>)
    requires
        states.len() == results.len() + 1,
        all_done(states[0].done),
        forall|j: int| 0 <= j < results.len() ==> poll_step(states[j], states[j + 1], #[trigger] results[j]),
    ensures
        forall|j: int| 0 <= j < results.len() ==> #[trigger] results[j] == (if j == 0 && !states[0].latched {
            RecvPoll::Ready(None)
        } else {
            RecvPoll::Pending
        }),
{
    assert forall|j: int| 0 <= j < results.len() implies #[trigger] results[j] == (if j == 0 && !states[0].latched {
        RecvPoll::Ready(None)
    } else {
        RecvPoll::Pending
    }) by {
        lemma_exhaustion_persists(states, results, j);
        assert(poll_step(states[j], states[j + 1], results[j]));
    }
}

/// Listener `k` is among those in `ks`.
pub open spec fn reported(ks: Seq<int>, k: int) -> bool {
    exists|i: int| 0 <= i < ks.len() && #[trigger] ks[i] == k
}

proof fn lemma_closed_stay_closed(
    states: Seq<SourceView>,
    ks: Seq<int>,
    results: Seq<Option<SignalEvent>>,
    n: int,
)
    requires
        states.len() == ks.len() + 1,
        results.len() == ks.len(),
        states[0].done.len() == N_KINDS,
        forall|i: int|
            0 <= i < ks.len() ==> 0 <= #[trigger] ks[i] < N_KINDS && absorb_step(
                states[i],
                ks[i],
                ListenerPoll::Closed,
                states[i + 1],
                results[i],
            ),
        0 <= n <= ks.len(),
    ensures
        states[n].done.len() == N_KINDS,
        states[n].latched == states[0].latched,
        forall|i: int| 0 <= i < n ==> states[n].done[#[trigger] ks[i]],
    decreases n,
{
    if n > 0 {
        lemma_closed_stay_closed(states, ks, results, n - 1);
        assert(absorb_step(states[n - 1], ks[n - 1], ListenerPoll::Closed, states[n], results[n - 1]));
    }
}

/// A listener whose stream reports its end is excluded for good: once each
/// listener has reported an end of stream, in any order and interleaving,
/// every listener is exhausted, none of those reports yielded an event, and
/// the next poll yields the terminal `None` (or stays pending where that
/// was already handed out), never an event.
pub proof fn lemma_end_of_streams_exhaust(
    states: Seq<SourceView>,
    ks: Seq<int>,
    results: Seq<Option<SignalEvent>>,
)
    requires
        states.len() == ks.len() + 1,
        results.len() == ks.len(),
        view_wf(states[0]),
        forall|i: int|
            0 <= i < ks.len() ==> 0 <= #[trigger] ks[i] < N_KINDS && absorb_step(
                states[i],
                ks[i],
                ListenerPoll::Closed,
                states[i + 1],
                results[i],
            ),
        forall|k: int| 0 <= k < N_KINDS ==> #[trigger] reported(ks, k),
    ensures
        all_done(states[ks.len() as int].done),
        forall|i: int| 0 <= i < ks.len() ==> #[trigger] results[i] is None,
        forall|post: SourceView, r: RecvPoll|
            #[trigger] poll_step(states[ks.len() as int], post, r) ==> r == (if states[0].latched {
                RecvPoll::Pending
            } else {
                RecvPoll::Ready(None)
            }),
{
    let n = ks.len() as int;
    lemma_closed_stay_closed(states, ks, results, n);
    assert forall|k: int| 0 <= k < states[n].done.len() implies #[trigger] states[n].done[k] by {
        assert(reported(ks, k));
        let i = choose|i: int| 0 <= i < ks.len() && #[trigger] ks[i] == k;
        assert(states[n].done[ks[i]]);
    }
    assert forall|i: int| 0 <= i < ks.len() implies #[trigger] results[i] is None by {
        assert(absorb_step(states[i], ks[i], ListenerPoll::Closed, states[i + 1], results[i]));
    }
    assert(all_done(states[n].done));
    assert forall|post: SourceView, r: RecvPoll| #[trigger] poll_step(states[n], post, r) implies r == (
    if states[0].latched {
        RecvPoll::Pending
    } else {
        RecvPoll::Ready(None)
    }) by {}
}

} // verus!
