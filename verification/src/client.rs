//! The client: supervisor, session, event bus and command queue put
//! together. The shell reports what happened with [`WSClient::handle`] and
//! carries out what comes back; callers queue commands and read events.
//!
//! There are two ways to have something sent. The command queue outlives
//! sessions: `submit` puts a command on it whether or not a session is
//! running, and a command queued while there is none is taken up, in
//! submission order, by the next session. `send` and `close` speak to the
//! running session: they queue for it, and without one they fail and keep
//! nothing.

use crate::bus::{bus_publish, bus_recv, BusView, EventBus, RecvError};
use crate::message::{
    ctrls_view, inbound_view, CtrlView, EventMessage, EventView, Frame, FrameView,
    ProtocolAnomaly, WSClientCtrl,
};
use crate::option::WSOption;
use crate::session::{
    effects_view, session_step, EffectView, SessionEffect, SessionEvent, SessionEventView, SessionStatus,
    SessionView, TransportSession,
};
use crate::supervisor::{
    connection_state_of, initial, supervisor_step, ConnectionState, ConnectionSupervisor,
    Directive, Outcome, Phase, SupervisorEvent, SupervisorView,
};
use crate::transform::{GenHader, TransformError, WSCell, WSClientHeader};
use std::collections::VecDeque;
use vstd::prelude::*;

verus! {

/// How many unread events each subscriber of a client's bus can hold.
pub const BUS_CAPACITY: usize = 128;

/// What the shell reports to the client.
#[derive(Debug, PartialEq, Eq)]
pub enum Input {
    ConnectSucceeded,
    ConnectFailed,
    /// The inbound side yielded a frame, or something it could not decode.
    Stream(Result<Frame, ProtocolAnomaly>),
    /// The session may take up the next queued command.
    Command,
    /// The keep-alive timer ticked.
    Tick,
    /// The outbound queue no longer takes frames.
    SendFailure,
    /// The connection of the ended session is gone.
    Closed,
    RetryTimerFired,
}

pub enum InputView {
    ConnectSucceeded,
    ConnectFailed,
    Stream(Option<FrameView>),
    Command,
    Tick,
    SendFailure,
    Closed,
    RetryTimerFired,
}

impl View for Input {
    type V = InputView;

    open spec fn view(&self) -> InputView {
        match self {
            Input::ConnectSucceeded => InputView::ConnectSucceeded,
            Input::ConnectFailed => InputView::ConnectFailed,
            Input::Stream(message) => InputView::Stream(inbound_view(*message)),
            Input::Command => InputView::Command,
            Input::Tick => InputView::Tick,
            Input::SendFailure => InputView::SendFailure,
            Input::Closed => InputView::Closed,
            Input::RetryTimerFired => InputView::RetryTimerFired,
        }
    }
}

/// What the client asks the shell to do.
#[derive(Debug, PartialEq, Eq)]
pub enum Output {
    /// Make one connect attempt to this URL and report how it went.
    Connect(String),
    /// Put this frame on the outbound queue.
    Send(Frame),
    /// Let the outbound queue drain, drop the connection, report `Closed`.
    Teardown,
    /// Start the retry timer with this many milliseconds.
    Sleep(u64),
    /// The client has stopped for good.
    Finish(Outcome),
}

pub enum OutputView {
    Connect(Seq<char>),
    Send(FrameView),
    Teardown,
    Sleep(u64),
    Finish(Outcome),
}

impl View for Output {
    type V = OutputView;

    open spec fn view(&self) -> OutputView {
        match self {
            Output::Connect(url) => OutputView::Connect(url@),
            Output::Send(frame) => OutputView::Send(frame@),
            Output::Teardown => OutputView::Teardown,
            Output::Sleep(ms) => OutputView::Sleep(*ms),
            Output::Finish(outcome) => OutputView::Finish(*outcome),
        }
    }
}

/// The view of each element of a sequence of outputs.
pub open spec fn outputs_view(outputs: Seq<Output>) -> Seq<OutputView> {
    outputs.map_values(|o: Output| o@)
}

/// The client as a mathematical value.
pub struct ClientView {
    pub url: Seq<char>,
    pub close_after: u64,
    /// The token of the header that the context produces, if a context is
    /// set.
    pub token: Option<Seq<char>>,
    pub supervisor: SupervisorView,
    /// The session of the current connection, from the moment the
    /// connection is made until it is gone.
    pub session: Option<SessionView>,
    pub bus: BusView,
    /// The commands not yet taken up, oldest first.
    pub commands: Seq<CtrlView>,
}

/// The client before `connect`.
pub open spec fn new_client() -> ClientView {
    ClientView {
        url: Seq::empty(),
        close_after: 0,
        token: None,
        supervisor: initial(0, None),
        session: None,
        bus: BusView { capacity: BUS_CAPACITY as nat, slots: Seq::empty() },
        commands: Seq::empty(),
    }
}

/// What a directive of the supervisor asks of the shell.
pub open spec fn directive_output(directive: Option<Directive>, url: Seq<char>) -> Seq<
    OutputView,
> {
    match directive {
        Some(Directive::Connect) => seq![OutputView::Connect(url)],
        Some(Directive::Teardown) => seq![OutputView::Teardown],
        Some(Directive::Sleep(ms)) => seq![OutputView::Sleep(ms)],
        Some(Directive::Stop(outcome)) => seq![OutputView::Finish(outcome)],
        _ => Seq::empty(),
    }
}

/// The effects of a session step carried out: events go on the bus, frames
/// go to the shell.
pub open spec fn apply_effects(bus: BusView, effects: Seq<EffectView>) -> (
    BusView,
    Seq<OutputView>,
)
    decreases effects.len(),
{
    if effects.len() == 0 {
        (bus, Seq::empty())
    } else {
        let (before, sent) = apply_effects(bus, effects.drop_last());
        match effects.last() {
            EffectView::Publish(event) => (bus_publish(before, event), sent),
            EffectView::Send(frame) => (before, sent.push(OutputView::Send(frame))),
        }
    }
}

/// The client after `connect`: from `Idle` the supervisor starts with the
/// given options and asks for the first attempt; in any other phase nothing
/// changes.
pub open spec fn client_connect(
    c: ClientView,
    url: Seq<char>,
    close_after: u64,
    retry_interval: u64,
    retry_max_count: Option<u32>,
) -> (ClientView, Seq<OutputView>) {
    if c.supervisor.phase == Phase::Idle {
        let (supervisor, directive) = supervisor_step(
            initial(retry_interval, retry_max_count),
            SupervisorEvent::Start,
        );
        (ClientView { url, close_after, supervisor, ..c }, directive_output(directive, url))
    } else {
        (c, Seq::empty())
    }
}

/// A report that concerns the supervisor alone, as the supervisor's event.
pub open spec fn supervisor_event(input: InputView) -> Option<SupervisorEvent> {
    match input {
        InputView::ConnectSucceeded => Some(SupervisorEvent::ConnectSucceeded),
        InputView::ConnectFailed => Some(SupervisorEvent::ConnectFailed),
        InputView::Closed => Some(SupervisorEvent::Closed),
        InputView::RetryTimerFired => Some(SupervisorEvent::RetryTimerFired),
        _ => None,
    }
}

/// A report that concerns the session, as the session's event, with the
/// command queue as it is afterwards. `Command` takes the oldest queued
/// command; with an empty queue it is no event.
pub open spec fn session_event(input: InputView, commands: Seq<CtrlView>) -> Option<
    (SessionEventView, Seq<CtrlView>),
> {
    match input {
        InputView::Stream(message) => Some((SessionEventView::Stream(message), commands)),
        InputView::Tick => Some((SessionEventView::Tick, commands)),
        InputView::SendFailure => Some((SessionEventView::SendFailure, commands)),
        InputView::Command => if commands.len() > 0 {
            Some((SessionEventView::Ctrl(commands.first()), commands.drop_first()))
        } else {
            None
        },
        _ => None,
    }
}

/// Whether the client has a running session.
pub open spec fn in_session(c: ClientView) -> bool {
    &&& c.supervisor.phase == Phase::Connected
    &&& c.session matches Some(s)
    &&& s.status == SessionStatus::Running
}

/// One step of the client at time `now`: the next state, and what the shell
/// is to do, in order.
///
/// A report for the supervisor goes to the supervisor. When a connection was
/// made, a session begins and `Open` goes on the bus; when the connection is
/// gone, the session is dropped. A report for the session goes to the
/// running session, if there is one; its events go on the bus, its frames to
/// the shell, and when it ends the supervisor is told and asks for the
/// teardown. Any other report changes nothing.
pub open spec fn client_step(c: ClientView, input: InputView, now: u64) -> (
    ClientView,
    Seq<OutputView>,
) {
    match supervisor_event(input) {
        Some(event) => {
            let (supervisor, directive) = supervisor_step(c.supervisor, event);
            if directive == Some(Directive::RunSession) {
                (
                    ClientView {
                        supervisor,
                        session: Some(
                            SessionView {
                                close_after: c.close_after,
                                last_ping: now,
                                status: SessionStatus::Running,
                            },
                        ),
                        bus: bus_publish(c.bus, EventView::Open),
                        ..c
                    },
                    Seq::empty(),
                )
            } else if event == SupervisorEvent::Closed && directive.is_some() {
                (ClientView { supervisor, session: None, ..c }, directive_output(directive, c.url))
            } else {
                (ClientView { supervisor, ..c }, directive_output(directive, c.url))
            }
        },
        None => match (c.session, session_event(input, c.commands)) {
            (Some(s), Some((event, commands))) => if in_session(c) {
                let (session, effects) = session_step(s, event, now, c.token);
                let (bus, sent) = apply_effects(c.bus, effects);
                match session.status {
                    SessionStatus::Running => (
                        ClientView { session: Some(session), bus, commands, ..c },
                        sent,
                    ),
                    SessionStatus::Ended { caller_exit } => {
                        let (supervisor, directive) = supervisor_step(
                            c.supervisor,
                            SupervisorEvent::SessionEnded { caller_exit },
                        );
                        (
                            ClientView { supervisor, session: Some(session), bus, commands, ..c },
                            sent + directive_output(directive, c.url),
                        )
                    },
                }
            } else {
                (c, Seq::empty())
            },
            _ => (c, Seq::empty()),
        },
    }
}

/// Appends what a directive asks of the shell.
fn push_directive(url: &String, directive: Option<Directive>, outputs: &mut Vec<Output>)
    ensures
        outputs_view(final(outputs)@) == outputs_view(old(outputs)@) + directive_output(
            directive,
            url@,
        ),
{
    let output = match directive {
        Some(Directive::Connect) => Some(Output::Connect(url.clone())),
        Some(Directive::Teardown) => Some(Output::Teardown),
        Some(Directive::Sleep(ms)) => Some(Output::Sleep(ms)),
        Some(Directive::Stop(outcome)) => Some(Output::Finish(outcome)),
        _ => None,
    };
    match output {
        Some(o) => {
            outputs.push(o);
            assert(outputs_view(outputs@) =~= outputs_view(old(outputs)@) + directive_output(
                directive,
                url@,
            ));
        },
        None => {
            assert(outputs_view(outputs@) =~= outputs_view(old(outputs)@) + directive_output(
                directive,
                url@,
            ));
        },
    }
}

/// Carries out the effects of a session step: events go on the bus, frames
/// are handed back for the shell.
fn carry_out(handler: &mut EventBus, effects: Vec<SessionEffect>) -> (sent: Vec<Output>)
    ensures
        (final(handler)@, outputs_view(sent@)) == apply_effects(
            old(handler)@,
            effects_view(effects@),
        ),
{
    let ghost all = effects_view(effects@);
    let mut rest = effects;
    let mut sent: Vec<Output> = Vec::new();
    let ghost mut done: int = 0;
    assert(all.skip(0) =~= all);
    assert(all.take(0) =~= Seq::<EffectView>::empty());
    assert(outputs_view(sent@) =~= Seq::<OutputView>::empty());
    while rest.len() > 0
        invariant
            0 <= done <= all.len(),
            effects_view(rest@) == all.skip(done),
            (handler@, outputs_view(sent@)) == apply_effects(old(handler)@, all.take(done)),
        decreases rest@.len(),
    {
        let ghost before = rest@;
        let ghost sent_before = outputs_view(sent@);
        let effect = rest.remove(0);
        proof {
            assert(effects_view(rest@) =~= effects_view(before).skip(1));
            assert(all.skip(done).skip(1) =~= all.skip(done + 1));
            assert(all.take(done + 1).drop_last() =~= all.take(done));
            assert(effects_view(before)[0] == effect@);
            assert(all.skip(done)[0] == all[done]);
            assert(all.take(done + 1).last() == effect@);
        }
        match effect {
            SessionEffect::Publish(event) => {
                let _ = handler.publish(event);
            },
            SessionEffect::Send(frame) => {
                sent.push(Output::Send(frame));
                assert(outputs_view(sent@) =~= sent_before.push(OutputView::Send(frame@)));
            },
        }
        proof {
            done = done + 1;
        }
    }
    assert(all.take(all.len() as int) =~= all);
    sent
}

/// Reads an event as a typed value: text and bytes are handed to the
/// type's readers, `Open` and `Close` to its two hooks. What comes back is
/// the hook's answer, unchanged: an answer that `from_str` gives for the
/// text of a `Text` event, `from_slice` for the bytes of a `Binary` event,
/// `open_cell` for `Open` and `close_cell` for `Close`, each with the given
/// context.
pub fn decode_event<C, O: WSCell<C>>(event: &EventMessage, context: &Option<C>) -> (r: Result<
    O,
    TransformError,
>)
    ensures
        hook_answers(*event, context, r),
{
    match event {
        EventMessage::Text(text) => O::from_str(text.as_str(), context),
        EventMessage::Binary(bytes) => O::from_slice(bytes.as_slice(), context),
        EventMessage::Open() => O::open_cell(context),
        EventMessage::Close() => O::close_cell(context),
    }
}

/// Whether `answer` is an answer that the type `O` gives when it is asked
/// to read the event: an answer of `from_str` for the text of a `Text`
/// event, of `from_slice` for the bytes of a `Binary` event, of `open_cell`
/// for `Open` and of `close_cell` for `Close`, each with the given context.
pub open spec fn hook_answers<C, O: WSCell<C>>(
    event: EventMessage,
    context: &Option<C>,
    answer: Result<O, TransformError>,
) -> bool {
    match event {
        EventMessage::Text(text) => exists|wire: &str|
            wire@ == text@ && #[trigger] call_ensures(O::from_str, (wire, context), answer),
        EventMessage::Binary(bytes) => exists|wire: &[u8]|
            wire@ == bytes@ && #[trigger] call_ensures(O::from_slice, (wire, context), answer),
        EventMessage::Open() => call_ensures(O::open_cell, (context,), answer),
        EventMessage::Close() => call_ensures(O::close_cell, (context,), answer),
    }
}

/// What a typed read yields for the answer of the type: the value, or the
/// type's error as an error of the transform.
pub open spec fn typed_answer<O>(answer: Result<O, TransformError>) -> Result<O, ClientError> {
    match answer {
        Ok(value) => Ok(value),
        Err(e) => Err(ClientError::Transform(e)),
    }
}

/// Why a typed read yielded no value.
#[derive(Clone, Copy, Debug, PartialEq, Eq, Structural)]
pub enum ClientError {
    /// The bus had no event to give.
    Bus(RecvError),
    /// The event could not be read as the type asked for.
    Transform(TransformError),
}

/// Why nothing was queued for sending.
#[derive(Clone, Copy, Debug, PartialEq, Eq, Structural)]
pub enum SendError {
    /// There is no running session to send on.
    NoSession,
    /// The value could not be written.
    Transform(TransformError),
}

/// What a reader does after a typed read.
#[derive(Clone, Copy, Debug, PartialEq, Eq, Structural)]
pub enum ReadNext {
    /// A value was read: hand it to whoever asked for it.
    Dispatch,
    /// Events were lost, or the event could not be read: go on reading.
    Skip,
    /// Nothing is waiting: read again when something was published.
    Wait,
    /// The subscription is gone: stop reading.
    Stop,
}

/// What follows a typed read. A reader goes on after a lag and after an
/// event that it cannot read, waits when its queue is empty, and stops only
/// when its subscription is closed.
pub open spec fn read_next<O>(read: Result<O, ClientError>) -> ReadNext {
    match read {
        Ok(_) => ReadNext::Dispatch,
        Err(ClientError::Bus(RecvError::Lagged(_))) => ReadNext::Skip,
        Err(ClientError::Transform(_)) => ReadNext::Skip,
        Err(ClientError::Bus(RecvError::Empty)) => ReadNext::Wait,
        Err(ClientError::Bus(RecvError::Closed)) => ReadNext::Stop,
    }
}

/// Says what a reader does after a typed read.
pub fn after_read<O>(read: &Result<O, ClientError>) -> (next: ReadNext)
    ensures
        next == read_next(*read),
{
    match read {
        Ok(_) => ReadNext::Dispatch,
        Err(ClientError::Bus(RecvError::Lagged(_))) => ReadNext::Skip,
        Err(ClientError::Transform(_)) => ReadNext::Skip,
        Err(ClientError::Bus(RecvError::Empty)) => ReadNext::Wait,
        Err(ClientError::Bus(RecvError::Closed)) => ReadNext::Stop,
    }
}

/// A reconnecting WebSocket client without its I/O. `C` is the context from
/// which the header of outgoing envelopes is made.
pub struct WSClient<C> {
    context: Option<C>,
    url: String,
    close_after: u64,
    supervisor: ConnectionSupervisor,
    session: Option<TransportSession>,
    handler: EventBus,
    commands: VecDeque<WSClientCtrl>,
}

impl<C: GenHader> View for WSClient<C> {
    type V = ClientView;

    closed spec fn view(&self) -> ClientView {
        ClientView {
            url: self.url@,
            close_after: self.close_after,
            token: match self.context {
                Some(c) => Some(c.header_token()),
                None => None,
            },
            supervisor: self.supervisor@,
            session: match self.session {
                Some(s) => Some(s@),
                None => None,
            },
            bus: self.handler@,
            commands: ctrls_view(self.commands@),
        }
    }
}

impl<C: GenHader> WSClient<C> {
    /// The context, if one is set.
    pub closed spec fn context_of(&self) -> Option<C> {
        self.context
    }

    /// A client that has not connected: no context, no subscribers, no
    /// commands.
    pub fn new() -> (r: Self)
        ensures
            r@ == new_client(),
            r.context_of().is_none(),
    {
        let client = WSClient {
            context: None,
            url: String::new(),
            close_after: 0,
            supervisor: ConnectionSupervisor::new(0, None),
            session: None,
            handler: EventBus::new(BUS_CAPACITY),
            commands: VecDeque::new(),
        };
        assert(client@.commands =~= Seq::<CtrlView>::empty());
        client
    }

    /// The context, if one is set.
    pub fn get_context(&self) -> (r: &Option<C>)
        ensures
            *r == self.context_of(),
    {
        &self.context
    }

    /// Sets the context.
    pub fn context(&mut self, t: C)
        ensures
            final(self).context_of() == Some(t),
            final(self)@ == (ClientView { token: Some(t.header_token()), ..old(self)@ }),
    {
        self.context = Some(t);
    }

    /// Begins a subscription to the client's events and returns its number.
    pub fn subscribe(&mut self) -> (id: usize)
        ensures
            id == old(self)@.bus.slots.len(),
            final(self).context_of() == old(self).context_of(),
            final(self)@ == (ClientView {
                bus: BusView {
                    slots: old(self)@.bus.slots.push(crate::bus::fresh_slot()),
                    ..old(self)@.bus
                },
                ..old(self)@
            }),
    {
        self.handler.subscribe()
    }

    /// Reads the next event of subscription `id`.
    pub fn recv(&mut self, id: usize) -> (r: Result<EventMessage, RecvError>)
        ensures
            final(self).context_of() == old(self).context_of(),
            final(self)@ == (ClientView {
                bus: bus_recv(old(self)@.bus, id as nat).0,
                ..old(self)@
            }),
            match r {
                Ok(event) => bus_recv(old(self)@.bus, id as nat).1 == Ok::<EventView, RecvError>(
                    event@,
                ),
                Err(e) => bus_recv(old(self)@.bus, id as nat).1 == Err::<EventView, RecvError>(e),
            },
    {
        self.handler.recv(id)
    }

    /// Puts a command on the command queue, whether or not a session is
    /// running: the queue outlives sessions, and the next session takes up
    /// what is left in it.
    pub fn submit(&mut self, ctrl: WSClientCtrl)
        ensures
            final(self).context_of() == old(self).context_of(),
            final(self)@ == (ClientView {
                commands: old(self)@.commands.push(ctrl@),
                ..old(self)@
            }),
    {
        self.commands.push_back(ctrl);
        assert(ctrls_view(self.commands@) =~= ctrls_view(old(self).commands@).push(ctrl@));
    }

    /// Whether a session is running.
    pub fn has_session(&self) -> (r: bool)
        ensures
            r == in_session(self@),
    {
        match (self.supervisor.phase(), self.session) {
            (Phase::Connected, Some(s)) => match s.status() {
                SessionStatus::Running => true,
                _ => false,
            },
            _ => false,
        }
    }

    /// Asks the running session to close the connection: `Exit` is queued
    /// behind what was queued before, and when the session takes it up the
    /// client stops. Without a running session this fails and nothing is
    /// queued.
    pub fn close(&mut self) -> (r: Result<(), SendError>)
        ensures
            final(self).context_of() == old(self).context_of(),
            in_session(old(self)@) ==> r.is_ok() && final(self)@ == (ClientView {
                commands: old(self)@.commands.push(CtrlView::Exit),
                ..old(self)@
            }),
            !in_session(old(self)@) ==> r == Err::<(), SendError>(SendError::NoSession)
                && final(self)@ == old(self)@,
    {
        if !self.has_session() {
            return Err(SendError::NoSession);
        }
        self.submit(WSClientCtrl::Exit);
        Ok(())
    }

    /// How many commands wait to be taken up.
    pub fn queued(&self) -> (r: usize)
        ensures
            r == self@.commands.len(),
    {
        self.commands.len()
    }

    pub fn connection_state(&self) -> (r: ConnectionState)
        ensures
            r == connection_state_of(self@.supervisor.phase),
    {
        self.supervisor.connection_state()
    }

    /// The outcome, once the client has stopped.
    pub fn outcome(&self) -> (r: Option<Outcome>)
        ensures
            r == match self@.supervisor.phase {
                Phase::Terminated(o) => Some(o),
                _ => None,
            },
    {
        self.supervisor.outcome()
    }

    /// Starts the client with the given options and asks for the first
    /// connect attempt. On a client that was started before, nothing
    /// happens.
    pub fn connect(&mut self, option: &WSOption) -> (outputs: Vec<Output>)
        ensures
            final(self).context_of() == old(self).context_of(),
            (final(self)@, outputs_view(outputs@)) == client_connect(
                old(self)@,
                option.url@,
                option.close_after,
                option.retry_interval,
                option.retry_max_count,
            ),
    {
        let mut outputs: Vec<Output> = Vec::new();
        assert(outputs_view(outputs@) =~= Seq::<OutputView>::empty());
        match self.supervisor.phase() {
            Phase::Idle => {
                self.url = option.url.clone();
                self.close_after = option.close_after;
                self.supervisor = ConnectionSupervisor::new(
                    option.retry_interval,
                    option.retry_max_count,
                );
                let directive = self.supervisor.step(SupervisorEvent::Start);
                push_directive(&self.url, directive, &mut outputs);
                assert(Seq::<OutputView>::empty() + directive_output(directive, self.url@)
                    =~= directive_output(directive, self.url@));
            },
            _ => {},
        }
        outputs
    }

    /// Queues what a typed value was written to, for the running session:
    /// the text goes out as `SendText`; a value that could not be written
    /// queues nothing and its error comes back. Without a running session
    /// this fails and nothing is queued.
    pub fn send_written(&mut self, written: Result<String, TransformError>) -> (r: Result<
        (),
        SendError,
    >)
        ensures
            final(self).context_of() == old(self).context_of(),
            !in_session(old(self)@) ==> r == Err::<(), SendError>(SendError::NoSession)
                && final(self)@ == old(self)@,
            in_session(old(self)@) ==> match written {
                Ok(text) => r.is_ok() && final(self)@ == (ClientView {
                    commands: old(self)@.commands.push(CtrlView::SendText(text@)),
                    ..old(self)@
                }),
                Err(e) => r == Err::<(), SendError>(SendError::Transform(e)) && final(self)@
                    == old(self)@,
            },
    {
        if !self.has_session() {
            return Err(SendError::NoSession);
        }
        match written {
            Ok(text) => {
                self.submit(WSClientCtrl::SendText(text));
                Ok(())
            },
            Err(e) => Err(SendError::Transform(e)),
        }
    }

    /// Writes a typed value with the client's context and queues the text
    /// as `SendText` for the running session. Without a running session
    /// this fails at once: the value is not written and nothing is queued.
    /// Otherwise the value's `to_string` is asked once, with the client's
    /// context. If it answers with a text, that text is queued as one
    /// `SendText` behind what was queued before; if it answers with an
    /// error, the error comes back and nothing has changed.
    pub fn send<D: WSCell<C>>(&mut self, data: &D) -> (r: Result<(), SendError>)
        ensures
            final(self).context_of() == old(self).context_of(),
            !in_session(old(self)@) ==> r == Err::<(), SendError>(SendError::NoSession)
                && final(self)@ == old(self)@,
            in_session(old(self)@) ==> match r {
                Ok(_) => exists|text: String| #[trigger]
                    call_ensures(
                        D::to_string,
                        (data, &old(self).context_of()),
                        Ok::<String, TransformError>(text),
                    ) && final(self)@ == (ClientView {
                        commands: old(self)@.commands.push(CtrlView::SendText(text@)),
                        ..old(self)@
                    }),
                Err(SendError::Transform(e)) => call_ensures(
                    D::to_string,
                    (data, &old(self).context_of()),
                    Err::<String, TransformError>(e),
                ) && final(self)@ == old(self)@,
                Err(SendError::NoSession) => false,
            },
    {
        if !self.has_session() {
            return Err(SendError::NoSession);
        }
        let written = data.to_string(&self.context);
        let ghost answer = written;
        let r = self.send_written(written);
        proof {
            match answer {
                Ok(text) => {
                    assert(call_ensures(
                        D::to_string,
                        (data, &old(self).context_of()),
                        Ok::<String, TransformError>(text),
                    ));
                },
                Err(_) => {},
            }
        }
        r
    }

    /// Reads the next event of subscription `id` as a typed value. The
    /// subscription moves on as with `recv`. An error of the bus comes back
    /// as it is; an event is handed to the type with the client's context,
    /// and the type's answer comes back.
    pub fn inner_recv<O: WSCell<C>>(&mut self, id: usize) -> (r: Result<O, ClientError>)
        ensures
            final(self).context_of() == old(self).context_of(),
            final(self)@ == (ClientView {
                bus: bus_recv(old(self)@.bus, id as nat).0,
                ..old(self)@
            }),
            match bus_recv(old(self)@.bus, id as nat).1 {
                Err(e) => r == Err::<O, ClientError>(ClientError::Bus(e)),
                Ok(read) => exists|event: EventMessage, answer: Result<O, TransformError>|
                    event@ == read && #[trigger] hook_answers(
                        event,
                        &old(self).context_of(),
                        answer,
                    ) && r == typed_answer(answer),
            },
    {
        match self.handler.recv(id) {
            Err(e) => Err(ClientError::Bus(e)),
            Ok(event) => {
                let decoded = decode_event::<C, O>(&event, &self.context);
                let ghost answer = decoded;
                let r = match decoded {
                    Ok(value) => Ok(value),
                    Err(e) => Err(ClientError::Transform(e)),
                };
                assert(hook_answers(event, &old(self).context_of(), answer) && r == typed_answer(
                    answer,
                ));
                r
            },
        }
    }

    /// Takes one report from the shell at time `now` (milliseconds on the
    /// shell's clock) and says what the shell is to do, in order.
    pub fn handle(&mut self, input: Input, now: u64) -> (outputs: Vec<Output>)
        ensures
            final(self).context_of() == old(self).context_of(),
            (final(self)@, outputs_view(outputs@)) == client_step(old(self)@, input@, now),
    {
        let mut outputs: Vec<Output> = Vec::new();
        assert(outputs_view(outputs@) =~= Seq::<OutputView>::empty());
        let report = match input {
            Input::ConnectSucceeded => Some(SupervisorEvent::ConnectSucceeded),
            Input::ConnectFailed => Some(SupervisorEvent::ConnectFailed),
            Input::Closed => Some(SupervisorEvent::Closed),
            Input::RetryTimerFired => Some(SupervisorEvent::RetryTimerFired),
            _ => None,
        };
        match report {
            Some(event) => {
                let directive = self.supervisor.step(event);
                match directive {
                    Some(Directive::RunSession) => {
                        let (session, _) = TransportSession::connected(self.close_after, now);
                        self.session = Some(session);
                        let _ = self.handler.publish(EventMessage::Open());
                    },
                    _ => {
                        match (event, directive) {
                            (SupervisorEvent::Closed, Some(_)) => {
                                self.session = None;
                            },
                            _ => {},
                        }
                        push_directive(&self.url, directive, &mut outputs);
                        assert(Seq::<OutputView>::empty() + directive_output(
                            directive,
                            self.url@,
                        ) =~= directive_output(directive, self.url@));
                    },
                }
                return outputs;
            },
            None => {},
        }
        let mut session = match (self.supervisor.phase(), self.session) {
            (Phase::Connected, Some(s)) => match s.status() {
                SessionStatus::Running => s,
                _ => {
                    return outputs;
                },
            },
            _ => {
                return outputs;
            },
        };
        let ghost queued = self.commands@;
        let event = match input {
            Input::Stream(message) => SessionEvent::Stream(message),
            Input::Tick => SessionEvent::Tick,
            Input::SendFailure => SessionEvent::SendFailure,
            _ => match self.commands.pop_front() {
                Some(ctrl) => {
                    assert(ctrls_view(self.commands@) =~= ctrls_view(queued).drop_first());
                    assert(ctrls_view(queued).first() == ctrl@);
                    SessionEvent::Ctrl(ctrl)
                },
                None => {
                    return outputs;
                },
            },
        };
        let header: Option<WSClientHeader> = match &self.context {
            Some(c) => Some(c.gen_header()),
            None => None,
        };
        let effects = session.step(event, now, &header);
        self.session = Some(session);
        let mut outputs = carry_out(&mut self.handler, effects);
        match session.status() {
            SessionStatus::Running => {},
            SessionStatus::Ended { caller_exit } => {
                let directive = self.supervisor.step(SupervisorEvent::SessionEnded { caller_exit });
                push_directive(&self.url, directive, &mut outputs);
            },
        }
        outputs
    }
}

} // verus!
