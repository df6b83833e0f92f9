//! The connection supervisor: the retry loop of the client as a state
//! machine. It is told what happened (a connect attempt failed, the session
//! ended, the retry timer fired) and answers with what to do next.
//!
//! Policy: the pause between attempts is fixed. Every failed attempt and
//! every session that ends without the caller asking for it costs one retry.
//! A session that ends because the caller asked for it stops the supervisor
//! for good.

use vstd::prelude::*;

verus! {

/// Why the supervisor stopped.
#[derive(Clone, Copy, Debug, PartialEq, Eq, Structural)]
pub enum Outcome {
    /// The caller issued `Exit` and the session that took it has closed.
    CallerExit,
    /// The retry budget is spent.
    Exhausted,
}

/// Where the supervisor stands.
#[derive(Clone, Copy, Debug, PartialEq, Eq, Structural)]
pub enum Phase {
    /// Not started yet.
    Idle,
    /// A connect attempt is under way.
    Connecting,
    /// A session is running.
    Connected,
    /// The session has ended and its connection is being torn down.
    Closing { caller_exit: bool },
    /// Waiting for the retry timer.
    Backoff,
    /// Stopped; nothing restarts it.
    Terminated(Outcome),
}

/// The connection as the outside sees it.
#[derive(Clone, Copy, Debug, PartialEq, Eq, Structural)]
pub enum ConnectionState {
    Disconnected,
    Connecting,
    Connected,
    Closing,
}

/// What the shell reports to the supervisor.
#[derive(Clone, Copy, Debug, PartialEq, Eq, Structural)]
pub enum SupervisorEvent {
    Start,
    ConnectSucceeded,
    ConnectFailed,
    SessionEnded { caller_exit: bool },
    /// The connection of the ended session is gone.
    Closed,
    RetryTimerFired,
}

/// What the supervisor asks the shell to do.
#[derive(Clone, Copy, Debug, PartialEq, Eq, Structural)]
pub enum Directive {
    /// Make one connect attempt.
    Connect,
    /// Run a session on the connection just made.
    RunSession,
    /// Tear the connection down and report `Closed`.
    Teardown,
    /// Start the retry timer with this many milliseconds.
    Sleep(u64),
    /// Stop and hand the outcome to whoever started the supervisor.
    Stop(Outcome),
}

/// The supervisor as a mathematical value.
pub struct SupervisorView {
    pub retry_interval: u64,
    pub retry_max_count: Option<u32>,
    pub phase: Phase,
    /// Retries spent so far.
    pub retries: nat,
}

/// The state before `Start`.
pub open spec fn initial(retry_interval: u64, retry_max_count: Option<u32>) -> SupervisorView {
    SupervisorView { retry_interval, retry_max_count, phase: Phase::Idle, retries: 0 }
}

/// The retry counter after one more retry. It stops counting at `u64::MAX`.
pub open spec fn bump(retries: nat) -> nat {
    if retries < u64::MAX {
        retries + 1
    } else {
        retries
    }
}

/// Whether `retries` exceeds the cap, if there is one.
pub open spec fn exhausted(retry_max_count: Option<u32>, retries: nat) -> bool {
    match retry_max_count {
        Some(max) => retries > max,
        None => false,
    }
}

/// One step of the supervisor: the next state and the directive, if any.
/// An event that the current phase does not expect changes nothing.
pub open spec fn supervisor_step(s: SupervisorView, event: SupervisorEvent) -> (
    SupervisorView,
    Option<Directive>,
) {
    match (s.phase, event) {
        (Phase::Idle, SupervisorEvent::Start) => (
            SupervisorView { phase: Phase::Connecting, ..s },
            Some(Directive::Connect),
        ),
        (Phase::Connecting, SupervisorEvent::ConnectSucceeded) => (
            SupervisorView { phase: Phase::Connected, ..s },
            Some(Directive::RunSession),
        ),
        (Phase::Connecting, SupervisorEvent::ConnectFailed) => (
            SupervisorView { phase: Phase::Backoff, ..s },
            Some(Directive::Sleep(s.retry_interval)),
        ),
        (Phase::Connected, SupervisorEvent::SessionEnded { caller_exit }) => (
            SupervisorView { phase: Phase::Closing { caller_exit }, ..s },
            Some(Directive::Teardown),
        ),
        (Phase::Closing { caller_exit }, SupervisorEvent::Closed) => if caller_exit {
            (
                SupervisorView { phase: Phase::Terminated(Outcome::CallerExit), ..s },
                Some(Directive::Stop(Outcome::CallerExit)),
            )
        } else {
            (
                SupervisorView { phase: Phase::Backoff, ..s },
                Some(Directive::Sleep(s.retry_interval)),
            )
        },
        (Phase::Backoff, SupervisorEvent::RetryTimerFired) => {
            let retries = bump(s.retries);
            if exhausted(s.retry_max_count, retries) {
                (
                    SupervisorView { phase: Phase::Terminated(Outcome::Exhausted), retries, ..s },
                    Some(Directive::Stop(Outcome::Exhausted)),
                )
            } else {
                (
                    SupervisorView { phase: Phase::Connecting, retries, ..s },
                    Some(Directive::Connect),
                )
            }
        },
        _ => (s, None),
    }
}

/// The supervisor run over a script of events: the state it ends in and the
/// directives it gave, in order.
pub open spec fn supervisor_run(s: SupervisorView, events: Seq<SupervisorEvent>) -> (
    SupervisorView,
    Seq<Directive>,
)
    decreases events.len(),
{
    if events.len() == 0 {
        (s, Seq::empty())
    } else {
        let (before, given) = supervisor_run(s, events.drop_last());
        let (after, directive) = supervisor_step(before, events.last());
        match directive {
            Some(d) => (after, given.push(d)),
            None => (after, given),
        }
    }
}

/// How many connect attempts a list of directives asks for.
pub open spec fn connect_attempts(directives: Seq<Directive>) -> nat
    decreases directives.len(),
{
    if directives.len() == 0 {
        0
    } else {
        connect_attempts(directives.drop_last()) + if directives.last() == Directive::Connect {
            1nat
        } else {
            0nat
        }
    }
}

/// The total of the pauses that a list of directives asks for, in
/// milliseconds.
pub open spec fn total_sleep(directives: Seq<Directive>) -> nat
    decreases directives.len(),
{
    if directives.len() == 0 {
        0
    } else {
        total_sleep(directives.drop_last()) + match directives.last() {
            Directive::Sleep(ms) => ms as nat,
            _ => 0nat,
        }
    }
}

/// The connection state that goes with a phase.
pub open spec fn connection_state_of(phase: Phase) -> ConnectionState {
    match phase {
        Phase::Connecting => ConnectionState::Connecting,
        Phase::Connected => ConnectionState::Connected,
        Phase::Closing { .. } => ConnectionState::Closing,
        _ => ConnectionState::Disconnected,
    }
}

/// The retry loop of one client.
#[derive(Clone, Copy, Debug, PartialEq, Eq)]
pub struct ConnectionSupervisor {
    retry_interval: u64,
    retry_max_count: Option<u32>,
    phase: Phase,
    retries: u64,
}

impl View for ConnectionSupervisor {
    type V = SupervisorView;

    closed spec fn view(&self) -> SupervisorView {
        SupervisorView {
            retry_interval: self.retry_interval,
            retry_max_count: self.retry_max_count,
            phase: self.phase,
            retries: self.retries as nat,
        }
    }
}

impl ConnectionSupervisor {
    /// A supervisor that has not started, with the given pause between
    /// attempts (milliseconds) and retry cap.
    pub fn new(retry_interval: u64, retry_max_count: Option<u32>) -> (r: Self)
        ensures
            r@ == initial(retry_interval, retry_max_count),
    {
        ConnectionSupervisor { retry_interval, retry_max_count, phase: Phase::Idle, retries: 0 }
    }

    pub fn phase(&self) -> (r: Phase)
        ensures
            r == self@.phase,
    {
        self.phase
    }

    /// Retries spent so far.
    pub fn retries(&self) -> (r: u64)
        ensures
            r == self@.retries,
    {
        self.retries
    }

    /// The outcome, once the supervisor has stopped.
    pub fn outcome(&self) -> (r: Option<Outcome>)
        ensures
            r == match self@.phase {
                Phase::Terminated(o) => Some(o),
                _ => None,
            },
    {
        match self.phase {
            Phase::Terminated(o) => Some(o),
            _ => None,
        }
    }

    pub fn connection_state(&self) -> (r: ConnectionState)
        ensures
            r == connection_state_of(self@.phase),
    {
        match self.phase {
            Phase::Connecting => ConnectionState::Connecting,
            Phase::Connected => ConnectionState::Connected,
            Phase::Closing { .. } => ConnectionState::Closing,
            _ => ConnectionState::Disconnected,
        }
    }

    /// Takes one event and says what to do next.
    pub fn step(&mut self, event: SupervisorEvent) -> (directive: Option<Directive>)
        ensures
            (final(self)@, directive) == supervisor_step(old(self)@, event),
    {
        match (self.phase, event) {
            (Phase::Idle, SupervisorEvent::Start) => {
                self.phase = Phase::Connecting;
                Some(Directive::Connect)
            },
            (Phase::Connecting, SupervisorEvent::ConnectSucceeded) => {
                self.phase = Phase::Connected;
                Some(Directive::RunSession)
            },
            (Phase::Connecting, SupervisorEvent::ConnectFailed) => {
                self.phase = Phase::Backoff;
                Some(Directive::Sleep(self.retry_interval))
            },
            (Phase::Connected, SupervisorEvent::SessionEnded { caller_exit }) => {
                self.phase = Phase::Closing { caller_exit };
                Some(Directive::Teardown)
            },
            (Phase::Closing { caller_exit }, SupervisorEvent::Closed) => {
                if caller_exit {
                    self.phase = Phase::Terminated(Outcome::CallerExit);
                    Some(Directive::Stop(Outcome::CallerExit))
                } else {
                    self.phase = Phase::Backoff;
                    Some(Directive::Sleep(self.retry_interval))
                }
            },
            (Phase::Backoff, SupervisorEvent::RetryTimerFired) => {
                if self.retries < u64::MAX {
                    self.retries = self.retries + 1;
                }
                let over = match self.retry_max_count {
                    Some(max) => self.retries > max as u64,
                    None => false,
                };
                if over {
                    self.phase = Phase::Terminated(Outcome::Exhausted);
                    Some(Directive::Stop(Outcome::Exhausted))
                } else {
                    self.phase = Phase::Connecting;
                    Some(Directive::Connect)
                }
            },
            _ => None,
        }
    }

    /// Runs the supervisor over a script of events and returns the
    /// directives it gave, in order.
    pub fn run(&mut self, events: &Vec<SupervisorEvent>) -> (directives: Vec<Directive>)
        ensures
            (final(self)@, directives@) == supervisor_run(old(self)@, events@),
    {
        let mut directives: Vec<Directive> = Vec::new();
        let mut i: usize = 0;
        while i < events.len()
            invariant
                i <= events.len(),
                (self@, directives@) == supervisor_run(old(self)@, events@.take(i as int)),
            decreases events.len() - i,
        {
            let directive = self.step(events[i]);
            match directive {
                Some(d) => directives.push(d),
                None => {},
            }
            proof {
                let next = events@.take(i + 1);
                assert(next.drop_last() =~= events@.take(i as int));
                assert(next.last() == events@[i as int]);
            }
            i = i + 1;
        }
        proof {
            assert(events@.take(events.len() as int) =~= events@);
        }
        directives
    }
}

/// Running one more event after a script is running the script and then
/// taking one step.
pub proof fn lemma_run_push(s: SupervisorView, events: Seq<SupervisorEvent>, event: SupervisorEvent)
    ensures
        supervisor_run(s, events.push(event)) == ({
            let (before, given) = supervisor_run(s, events);
            let (after, directive) = supervisor_step(before, event);
            match directive {
                Some(d) => (after, given.push(d)),
                None => (after, given),
            }
        }),
{
    assert(events.push(event).drop_last() =~= events);
}

/// Running two scripts one after the other is running their concatenation.
pub proof fn lemma_run_concat(
    s: SupervisorView,
    first: Seq<SupervisorEvent>,
    second: Seq<SupervisorEvent>,
)
    ensures
        supervisor_run(s, first + second) == ({
            let (middle, given) = supervisor_run(s, first);
            let (end, more) = supervisor_run(middle, second);
            (end, given + more)
        }),
    decreases second.len(),
{
    let (middle, given) = supervisor_run(s, first);
    if second.len() == 0 {
        assert(first + second =~= first);
        assert(given + Seq::<Directive>::empty() =~= given);
    } else {
        let shorter = second.drop_last();
        lemma_run_concat(s, first, shorter);
        assert((first + second).drop_last() =~= first + shorter);
        assert((first + second).last() == second.last());
        let (before, more) = supervisor_run(middle, shorter);
        let (after, directive) = supervisor_step(before, second.last());
        match directive {
            Some(d) => {
                assert((given + more).push(d) =~= given + more.push(d));
            },
            None => {},
        }
    }
}

/// The connect attempts of a list with one more directive.
pub proof fn lemma_attempts_push(directives: Seq<Directive>, d: Directive)
    ensures
        connect_attempts(directives.push(d)) == connect_attempts(directives) + if d
            == Directive::Connect {
            1nat
        } else {
            0nat
        },
        total_sleep(directives.push(d)) == total_sleep(directives) + match d {
            Directive::Sleep(ms) => ms as nat,
            _ => 0nat,
        },
{
    assert(directives.push(d).drop_last() =~= directives);
}

/// What a server that never answers makes the shell report: `Start`, then
/// `rounds` times a failed attempt followed by the retry timer.
pub open spec fn failing_script(rounds: nat) -> Seq<SupervisorEvent>
    decreases rounds,
{
    if rounds == 0 {
        seq![SupervisorEvent::Start]
    } else {
        failing_script((rounds - 1) as nat).push(SupervisorEvent::ConnectFailed).push(
            SupervisorEvent::RetryTimerFired,
        )
    }
}

/// The first attempt: a supervisor that is started asks for one connect
/// attempt and for nothing else.
pub proof fn lemma_first_attempt(start: SupervisorView)
    requires
        start.phase == Phase::Idle,
    ensures
        supervisor_run(start, failing_script(0)) == (
            SupervisorView { phase: Phase::Connecting, ..start },
            seq![Directive::Connect],
        ),
        connect_attempts(seq![Directive::Connect]) == 1,
        total_sleep(seq![Directive::Connect]) == 0,
{
    let none = Seq::<SupervisorEvent>::empty();
    lemma_run_push(start, none, SupervisorEvent::Start);
    assert(failing_script(0) =~= none.push(SupervisorEvent::Start));
    lemma_attempts_push(Seq::empty(), Directive::Connect);
    assert(seq![Directive::Connect] =~= Seq::<Directive>::empty().push(Directive::Connect));
}

/// One failed round: after a script that left the supervisor connecting, a
/// failed attempt and the retry timer cost one retry and one pause of
/// `retry_interval`, and bring a new attempt, or `Exhausted` if the cap is
/// exceeded.
pub proof fn lemma_failed_round(start: SupervisorView, script: Seq<SupervisorEvent>)
    requires
        supervisor_run(start, script).0.phase == Phase::Connecting,
    ensures
        ({
            let (s, given) = supervisor_run(start, script);
            let (next, all) = supervisor_run(
                start,
                script.push(SupervisorEvent::ConnectFailed).push(SupervisorEvent::RetryTimerFired),
            );
            let retries = bump(s.retries);
            if exhausted(s.retry_max_count, retries) {
                &&& next == SupervisorView {
                    phase: Phase::Terminated(Outcome::Exhausted),
                    retries,
                    ..s
                }
                &&& all == given.push(Directive::Sleep(s.retry_interval)).push(
                    Directive::Stop(Outcome::Exhausted),
                )
                &&& connect_attempts(all) == connect_attempts(given)
                &&& total_sleep(all) == total_sleep(given) + s.retry_interval
            } else {
                &&& next == SupervisorView { phase: Phase::Connecting, retries, ..s }
                &&& all == given.push(Directive::Sleep(s.retry_interval)).push(Directive::Connect)
                &&& connect_attempts(all) == connect_attempts(given) + 1
                &&& total_sleep(all) == total_sleep(given) + s.retry_interval
            }
        }),
{
    let (s, given) = supervisor_run(start, script);
    let paused = given.push(Directive::Sleep(s.retry_interval));
    lemma_run_push(start, script, SupervisorEvent::ConnectFailed);
    lemma_attempts_push(given, Directive::Sleep(s.retry_interval));
    lemma_run_push(
        start,
        script.push(SupervisorEvent::ConnectFailed),
        SupervisorEvent::RetryTimerFired,
    );
    lemma_attempts_push(paused, Directive::Connect);
    lemma_attempts_push(paused, Directive::Stop(Outcome::Exhausted));
}

/// While the cap is not exceeded, every failed round is answered by a pause
/// and a new attempt: after `rounds <= max` failed rounds the supervisor is
/// connecting for the `rounds + 1`-th time and has not stopped.
pub proof fn lemma_failing_rounds_within_budget(retry_interval: u64, max: u32, rounds: nat)
    requires
        rounds <= max,
    ensures
        ({
            let (s, given) = supervisor_run(
                initial(retry_interval, Some(max)),
                failing_script(rounds),
            );
            &&& s == SupervisorView {
                phase: Phase::Connecting,
                retries: rounds,
                ..initial(retry_interval, Some(max))
            }
            &&& connect_attempts(given) == rounds + 1
            &&& total_sleep(given) == rounds * retry_interval
            &&& given.last() == Directive::Connect
        }),
    decreases rounds,
{
    let start = initial(retry_interval, Some(max));
    if rounds == 0 {
        lemma_first_attempt(start);
    } else {
        lemma_failing_rounds_within_budget(retry_interval, max, (rounds - 1) as nat);
        lemma_failed_round(start, failing_script((rounds - 1) as nat));
        assert(rounds * retry_interval == (rounds - 1) * retry_interval + retry_interval)
            by (nonlinear_arith);
    }
}

/// With a cap of `max` retries and a server that never answers, the
/// supervisor makes exactly `max + 1` connect attempts, pauses after each,
/// and then reports `Exhausted`. It does not stop earlier.
pub proof fn lemma_exhausted_after_max_plus_one_attempts(retry_interval: u64, max: u32)
    ensures
        ({
            let (s, given) = supervisor_run(
                initial(retry_interval, Some(max)),
                failing_script(max as nat + 1),
            );
            &&& s.phase == Phase::Terminated(Outcome::Exhausted)
            &&& connect_attempts(given) == max + 1
            &&& total_sleep(given) == (max + 1) * retry_interval
            &&& given.last() == Directive::Stop(Outcome::Exhausted)
        }),
        forall|rounds: nat|
            rounds <= max ==> (#[trigger] supervisor_run(
                initial(retry_interval, Some(max)),
                failing_script(rounds),
            )).0.phase == Phase::Connecting,
{
    let start = initial(retry_interval, Some(max));
    lemma_failing_rounds_within_budget(retry_interval, max, max as nat);
    lemma_failed_round(start, failing_script(max as nat));
    assert((max + 1) * retry_interval == max * retry_interval + retry_interval)
        by (nonlinear_arith);
    assert forall|rounds: nat| rounds <= max implies (#[trigger] supervisor_run(
        start,
        failing_script(rounds),
    )).0.phase == Phase::Connecting by {
        lemma_failing_rounds_within_budget(retry_interval, max, rounds);
    }
}

/// Without a cap the supervisor never gives up: after any number of failed
/// rounds it is connecting again.
pub proof fn lemma_uncapped_never_exhausted(retry_interval: u64, rounds: nat)
    ensures
        ({
            let (s, given) = supervisor_run(initial(retry_interval, None), failing_script(rounds));
            &&& s.phase == Phase::Connecting
            &&& s.retry_max_count == None::<u32>
            &&& s.retry_interval == retry_interval
            &&& connect_attempts(given) == rounds + 1
        }),
    decreases rounds,
{
    let start = initial(retry_interval, None);
    if rounds == 0 {
        lemma_first_attempt(start);
    } else {
        lemma_uncapped_never_exhausted(retry_interval, (rounds - 1) as nat);
        lemma_failed_round(start, failing_script((rounds - 1) as nat));
    }
}

/// Once the supervisor has stopped, nothing restarts it: whatever is
/// reported afterwards, it stays as it is and gives no directive.
pub proof fn lemma_terminated_is_final(s: SupervisorView, events: Seq<SupervisorEvent>)
    requires
        s.phase is Terminated,
    ensures
        supervisor_run(s, events) == (s, Seq::<Directive>::empty()),
    decreases events.len(),
{
    if events.len() > 0 {
        lemma_terminated_is_final(s, events.drop_last());
    }
}

/// A session that ends on the caller's `Exit` stops the supervisor as soon
/// as its connection has closed. Whatever is reported afterwards, no connect
/// attempt follows.
pub proof fn lemma_exit_stops_supervisor(s: SupervisorView, later: Seq<SupervisorEvent>)
    requires
        s.phase == Phase::Connected,
    ensures
        ({
            let script = seq![
                SupervisorEvent::SessionEnded { caller_exit: true },
                SupervisorEvent::Closed,
            ] + later;
            let (end, given) = supervisor_run(s, script);
            &&& end == SupervisorView { phase: Phase::Terminated(Outcome::CallerExit), ..s }
            &&& given == seq![Directive::Teardown, Directive::Stop(Outcome::CallerExit)]
            &&& connect_attempts(given) == 0
        }),
{
    let ended = SupervisorEvent::SessionEnded { caller_exit: true };
    let head = seq![ended, SupervisorEvent::Closed];
    assert(head =~= Seq::<SupervisorEvent>::empty().push(ended).push(SupervisorEvent::Closed));
    lemma_run_push(s, Seq::empty(), ended);
    lemma_run_push(s, Seq::<SupervisorEvent>::empty().push(ended), SupervisorEvent::Closed);
    let (middle, given) = supervisor_run(s, head);
    assert(given =~= seq![Directive::Teardown, Directive::Stop(Outcome::CallerExit)]);
    lemma_terminated_is_final(middle, later);
    lemma_run_concat(s, head, later);
    assert(given + Seq::<Directive>::empty() =~= given);
    lemma_attempts_push(Seq::empty(), Directive::Teardown);
    lemma_attempts_push(
        Seq::<Directive>::empty().push(Directive::Teardown),
        Directive::Stop(Outcome::CallerExit),
    );
    assert(given =~= Seq::<Directive>::empty().push(Directive::Teardown).push(
        Directive::Stop(Outcome::CallerExit),
    ));
}

/// A session that ends without the caller asking for it is torn down and
/// followed by one pause of `retry_interval`; when the timer fires and the
/// budget is not spent, a new connect attempt is made.
pub proof fn lemma_involuntary_end_reconnects(s: SupervisorView)
    requires
        s.phase == Phase::Connected,
        !exhausted(s.retry_max_count, bump(s.retries)),
    ensures
        supervisor_run(
            s,
            seq![
                SupervisorEvent::SessionEnded { caller_exit: false },
                SupervisorEvent::Closed,
                SupervisorEvent::RetryTimerFired,
            ],
        ) == (
            SupervisorView { phase: Phase::Connecting, retries: bump(s.retries), ..s },
            seq![Directive::Teardown, Directive::Sleep(s.retry_interval), Directive::Connect],
        ),
{
    let ended = SupervisorEvent::SessionEnded { caller_exit: false };
    let e0 = Seq::<SupervisorEvent>::empty();
    lemma_run_push(s, e0, ended);
    lemma_run_push(s, e0.push(ended), SupervisorEvent::Closed);
    lemma_run_push(
        s,
        e0.push(ended).push(SupervisorEvent::Closed),
        SupervisorEvent::RetryTimerFired,
    );
    assert(seq![ended, SupervisorEvent::Closed, SupervisorEvent::RetryTimerFired] =~= e0.push(
        ended,
    ).push(SupervisorEvent::Closed).push(SupervisorEvent::RetryTimerFired));
    let given = supervisor_run(
        s,
        e0.push(ended).push(SupervisorEvent::Closed).push(SupervisorEvent::RetryTimerFired),
    ).1;
    assert(given =~= seq![
        Directive::Teardown,
        Directive::Sleep(s.retry_interval),
        Directive::Connect,
    ]);
}

} // verus!
