//! What holds of the client as a whole: delivery of inbound frames, what a
//! subscriber sees depending on when it subscribed, the order of commands,
//! the effect of `Exit`, and what follows a silent peer.

use crate::bus::{
    bus_publish, bus_publish_all, bus_recv, bus_recv_n, bus_subscribe,
    lemma_delivered_in_order_exactly_once, lemma_publish_all_slotwise,
    lemma_publish_within_capacity, BusView, RecvError, SlotView,
};
use crate::client::{
    apply_effects, client_connect, client_step, in_session, new_client, session_event,
    supervisor_event, ClientView, InputView, OutputView, BUS_CAPACITY,
};
use crate::message::{CtrlView, EventView, FrameView};
use crate::session::{
    ctrl_frame, keepalive_expired, session_step, stream_event, EffectView, SessionStatus,
};
use crate::supervisor::{bump, exhausted, Outcome, Phase};
use vstd::prelude::*;

verus! {

/// A report together with the time at which the shell made it.
pub struct Timed {
    pub input: InputView,
    pub now: u64,
}

/// The client run over a script of reports: the state it ends in and what
/// it asked of the shell, in order.
pub open spec fn client_run(c: ClientView, script: Seq<Timed>) -> (ClientView, Seq<OutputView>)
    decreases script.len(),
{
    if script.len() == 0 {
        (c, Seq::empty())
    } else {
        let (before, asked) = client_run(c, script.drop_last());
        let (after, more) = client_step(before, script.last().input, script.last().now);
        (after, asked + more)
    }
}

/// The client after one more subscription began.
pub open spec fn client_subscribe(c: ClientView) -> ClientView {
    ClientView { bus: bus_subscribe(c.bus), ..c }
}

/// Carrying out one effect: an event goes on the bus, a frame goes to the
/// shell.
pub proof fn lemma_one_effect(bus: BusView, effect: EffectView)
    ensures
        apply_effects(bus, seq![effect]) == match effect {
            EffectView::Publish(event) => (bus_publish(bus, event), Seq::<OutputView>::empty()),
            EffectView::Send(frame) => (bus, seq![OutputView::Send(frame)]),
        },
{
    let none = Seq::<OutputView>::empty();
    assert(seq![effect].drop_last() =~= Seq::<EffectView>::empty());
    assert(apply_effects(bus, seq![effect].drop_last()) == (bus, none));
    match effect {
        EffectView::Send(frame) => {
            assert(none.push(OutputView::Send(frame)) =~= seq![OutputView::Send(frame)]);
        },
        EffectView::Publish(_) => {},
    }
}

/// Carrying out effects changes neither the capacity of the bus nor the
/// number of its subscriptions.
pub proof fn lemma_effects_keep_subscriptions(bus: BusView, effects: Seq<EffectView>)
    ensures
        apply_effects(bus, effects).0.capacity == bus.capacity,
        apply_effects(bus, effects).0.slots.len() == bus.slots.len(),
    decreases effects.len(),
{
    if effects.len() > 0 {
        lemma_effects_keep_subscriptions(bus, effects.drop_last());
    }
}

/// Whether a frame carries data: text or bytes.
pub open spec fn is_data(frame: FrameView) -> bool {
    frame is Text || frame is Binary
}

/// The reports of frames arriving one after the other.
pub open spec fn arrivals(frames: Seq<FrameView>, times: Seq<u64>) -> Seq<Timed>
    recommends
        times.len() == frames.len(),
{
    Seq::new(
        frames.len(),
        |i: int| Timed { input: InputView::Stream(Some(frames[i])), now: times[i] },
    )
}

/// The events that data frames become: `Text` for text and `Binary` for
/// bytes, with the payload unchanged.
pub open spec fn data_events(frames: Seq<FrameView>) -> Seq<EventView>
    recommends
        forall|i: int| 0 <= i < frames.len() ==> is_data(frames[i]),
{
    frames.map_values(|frame: FrameView| stream_event(Some(frame)).unwrap())
}

/// Text frames, given their texts.
pub open spec fn text_frames(texts: Seq<Seq<char>>) -> Seq<FrameView> {
    texts.map_values(|text: Seq<char>| FrameView::Text(text))
}

/// The reports of text frames arriving one after the other.
pub open spec fn text_arrivals(texts: Seq<Seq<char>>, times: Seq<u64>) -> Seq<Timed>
    recommends
        times.len() == texts.len(),
{
    arrivals(text_frames(texts), times)
}

/// The events that text frames become.
pub open spec fn text_events(texts: Seq<Seq<char>>) -> Seq<EventView> {
    texts.map_values(|text: Seq<char>| EventView::Text(text))
}

/// Inbound data frames are published as they come: a running session that
/// receives text and binary frames stays as it is, sends nothing, and puts
/// on the bus exactly one event for each frame, in the order of arrival.
pub proof fn lemma_data_frames_are_published(
    c: ClientView,
    frames: Seq<FrameView>,
    times: Seq<u64>,
)
    requires
        in_session(c),
        times.len() == frames.len(),
        forall|i: int| 0 <= i < frames.len() ==> is_data(frames[i]),
    ensures
        client_run(c, arrivals(frames, times)) == (
            ClientView { bus: bus_publish_all(c.bus, data_events(frames)), ..c },
            Seq::<OutputView>::empty(),
        ),
    decreases frames.len(),
{
    let script = arrivals(frames, times);
    if frames.len() == 0 {
        assert(data_events(frames) =~= Seq::<EventView>::empty());
    } else {
        let fewer = frames.drop_last();
        let earlier = times.drop_last();
        lemma_data_frames_are_published(c, fewer, earlier);
        assert(script.drop_last() =~= arrivals(fewer, earlier));
        assert(data_events(frames).drop_last() =~= data_events(fewer));
        let (before, asked) = client_run(c, script.drop_last());
        let event = stream_event(Some(frames.last())).unwrap();
        assert(data_events(frames).last() == event);
        lemma_one_effect(before.bus, EffectView::Publish(event));
        assert(asked + Seq::<OutputView>::empty() =~= asked);
    }
}

/// Data frames that arrive while a subscriber has room for them all reach
/// that subscriber complete, in order and once: reading as often as there
/// are events yields what was waiting before, then one event for each frame
/// in the order of arrival, and the read after that finds nothing.
pub proof fn lemma_data_frames_reach_subscriber(
    c: ClientView,
    id: nat,
    frames: Seq<FrameView>,
    times: Seq<u64>,
)
    requires
        in_session(c),
        times.len() == frames.len(),
        forall|i: int| 0 <= i < frames.len() ==> is_data(frames[i]),
        id < c.bus.slots.len(),
        c.bus.slots[id as int].active,
        c.bus.slots[id as int].missed == 0,
        c.bus.slots[id as int].pending.len() + frames.len() <= c.bus.capacity,
    ensures
        ({
            let waiting = c.bus.slots[id as int].pending;
            let (after, asked) = client_run(c, arrivals(frames, times));
            let (read, got) = bus_recv_n(after.bus, id, waiting.len() + frames.len());
            &&& in_session(after)
            &&& asked == Seq::<OutputView>::empty()
            &&& after.bus.slots[id as int].pending == waiting + data_events(frames)
            &&& got == (waiting + data_events(frames)).map_values(
                |e: EventView| Ok::<EventView, RecvError>(e),
            )
            &&& bus_recv(read, id).1 == Err::<EventView, RecvError>(RecvError::Empty)
        }),
{
    lemma_data_frames_are_published(c, frames, times);
    lemma_publish_within_capacity(c.bus, id as int, data_events(frames));
    lemma_delivered_in_order_exactly_once(c.bus, id, data_events(frames));
}

/// Text frames that arrive while a subscriber has room for them all reach
/// that subscriber complete, in order and once: reading as often as there
/// are events yields what was waiting before, then one `Text` event for each
/// frame in the order of arrival, with the text unchanged, and the read
/// after that finds nothing.
pub proof fn lemma_text_frames_reach_subscriber(
    c: ClientView,
    id: nat,
    texts: Seq<Seq<char>>,
    times: Seq<u64>,
)
    requires
        in_session(c),
        times.len() == texts.len(),
        id < c.bus.slots.len(),
        c.bus.slots[id as int].active,
        c.bus.slots[id as int].missed == 0,
        c.bus.slots[id as int].pending.len() + texts.len() <= c.bus.capacity,
    ensures
        ({
            let waiting = c.bus.slots[id as int].pending;
            let (after, asked) = client_run(c, text_arrivals(texts, times));
            let (read, got) = bus_recv_n(after.bus, id, waiting.len() + texts.len());
            &&& in_session(after)
            &&& asked == Seq::<OutputView>::empty()
            &&& after.bus.slots[id as int].pending == waiting + text_events(texts)
            &&& got == (waiting + text_events(texts)).map_values(
                |e: EventView| Ok::<EventView, RecvError>(e),
            )
            &&& bus_recv(read, id).1 == Err::<EventView, RecvError>(RecvError::Empty)
        }),
{
    assert(data_events(text_frames(texts)) =~= text_events(texts));
    lemma_data_frames_reach_subscriber(c, id, text_frames(texts), times);
}

/// A successful connect attempt begins a session and publishes `Open`,
/// once and before anything else of that session: the client asks nothing
/// of the shell, and every subscriber with room gets `Open` behind what it
/// had waiting.
pub proof fn lemma_open_is_published_first(c: ClientView, now: u64, id: int)
    requires
        c.supervisor.phase == Phase::Connecting,
        0 <= id < c.bus.slots.len(),
        c.bus.slots[id].active,
        c.bus.slots[id].pending.len() < c.bus.capacity,
    ensures
        ({
            let (after, asked) = client_step(c, InputView::ConnectSucceeded, now);
            &&& in_session(after)
            &&& asked == Seq::<OutputView>::empty()
            &&& after.bus == bus_publish(c.bus, EventView::Open)
            &&& after.bus.slots[id] == SlotView {
                pending: c.bus.slots[id].pending.push(EventView::Open),
                ..c.bus.slots[id]
            }
        }),
{
    let slot = c.bus.slots[id];
    lemma_publish_all_slotwise(c.bus, seq![EventView::Open], id);
    assert(seq![EventView::Open].drop_last() =~= Seq::<EventView>::empty());
    lemma_publish_within_capacity(c.bus, id, seq![EventView::Open]);
    assert(slot.pending + seq![EventView::Open] =~= slot.pending.push(EventView::Open));
}

/// Who subscribed before the connection was made sees `Open` and then the
/// frames of the session; who subscribed after `Open` was published sees the
/// frames only. With an early subscriber that has nothing waiting and a late
/// one that subscribes right after the connect attempt succeeded, and with
/// room for everything in both queues, the early one reads `Open` followed
/// by one event for each data frame in the order of arrival, the late one
/// reads those events without `Open`, and after that both find nothing.
pub proof fn lemma_early_and_late_subscriber(
    c: ClientView,
    early: nat,
    now: u64,
    frames: Seq<FrameView>,
    times: Seq<u64>,
)
    requires
        c.supervisor.phase == Phase::Connecting,
        early < c.bus.slots.len(),
        c.bus.slots[early as int].active,
        c.bus.slots[early as int].missed == 0,
        c.bus.slots[early as int].pending.len() == 0,
        times.len() == frames.len(),
        forall|i: int| 0 <= i < frames.len() ==> is_data(frames[i]),
        1 + frames.len() <= c.bus.capacity,
    ensures
        ({
            let late = c.bus.slots.len();
            let opened = client_step(c, InputView::ConnectSucceeded, now).0;
            let joined = client_subscribe(opened);
            let end = client_run(joined, arrivals(frames, times)).0;
            let (early_read, early_got) = bus_recv_n(end.bus, early, 1 + frames.len());
            let (late_read, late_got) = bus_recv_n(end.bus, late, frames.len());
            &&& early_got == (seq![EventView::Open] + data_events(frames)).map_values(
                |e: EventView| Ok::<EventView, RecvError>(e),
            )
            &&& late_got == data_events(frames).map_values(
                |e: EventView| Ok::<EventView, RecvError>(e),
            )
            &&& bus_recv(early_read, early).1 == Err::<EventView, RecvError>(RecvError::Empty)
            &&& bus_recv(late_read, late).1 == Err::<EventView, RecvError>(RecvError::Empty)
        }),
{
    let late = c.bus.slots.len();
    let opened = client_step(c, InputView::ConnectSucceeded, now).0;
    let joined = client_subscribe(opened);
    let events = data_events(frames);
    lemma_open_is_published_first(c, now, early as int);
    assert(Seq::<EventView>::empty().push(EventView::Open) =~= seq![EventView::Open]);
    assert(joined.bus.slots[early as int].pending =~= seq![EventView::Open]);
    lemma_data_frames_are_published(joined, frames, times);
    lemma_delivered_in_order_exactly_once(joined.bus, early, events);
    lemma_delivered_in_order_exactly_once(joined.bus, late, events);
    assert(Seq::<EventView>::empty() + events =~= events);
}

/// Reports that a command is due, one after the other.
pub open spec fn command_reports(times: Seq<u64>) -> Seq<Timed> {
    Seq::new(times.len(), |i: int| Timed { input: InputView::Command, now: times[i] })
}

/// The frames that commands put on the wire, in the order of the commands.
pub open spec fn frames_of(commands: Seq<CtrlView>, token: Option<Seq<char>>) -> Seq<OutputView>
    decreases commands.len(),
{
    if commands.len() == 0 {
        Seq::empty()
    } else {
        frames_of(commands.drop_last(), token) + match ctrl_frame(commands.last(), token) {
            Some(frame) => seq![OutputView::Send(frame)],
            None => Seq::empty(),
        }
    }
}

/// Commands are taken up in the order in which they were queued, each once:
/// a running session that is told `n` times that a command is due takes the
/// `n` oldest commands off the queue and sends their frames in that order.
/// This holds as long as none of them is `Exit`, which ends the session.
pub proof fn lemma_commands_are_taken_in_order(c: ClientView, times: Seq<u64>)
    requires
        in_session(c),
        times.len() <= c.commands.len(),
        forall|i: int| 0 <= i < times.len() ==> !(c.commands[i] is Exit),
    ensures
        client_run(c, command_reports(times)) == (
            ClientView { commands: c.commands.skip(times.len() as int), ..c },
            frames_of(c.commands.take(times.len() as int), c.token),
        ),
    decreases times.len(),
{
    let n = times.len() as int;
    if n == 0 {
        assert(c.commands.skip(0) =~= c.commands);
        assert(c.commands.take(0) =~= Seq::<CtrlView>::empty());
    } else {
        let earlier = times.drop_last();
        lemma_commands_are_taken_in_order(c, earlier);
        assert(command_reports(times).drop_last() =~= command_reports(earlier));
        let (before, asked) = client_run(c, command_reports(earlier));
        let ctrl = c.commands[n - 1];
        assert(before.commands.first() == ctrl);
        assert(before.commands.drop_first() =~= c.commands.skip(n));
        assert(c.commands.take(n).drop_last() =~= c.commands.take(n - 1));
        assert(c.commands.take(n).last() == ctrl);
        let none = Seq::<OutputView>::empty();
        match ctrl_frame(ctrl, c.token) {
            Some(frame) => {
                lemma_one_effect(before.bus, EffectView::Send(frame));
            },
            None => {
                assert(asked + none =~= asked);
                assert(frames_of(c.commands.take(n - 1), c.token) + none =~= frames_of(
                    c.commands.take(n - 1),
                    c.token,
                ));
            },
        }
    }
}

/// A command and an inbound text frame that are due at the same time may be
/// handled in either order: the frame is sent and the event is published
/// both ways, and the client ends in the same state.
pub proof fn lemma_send_and_receive_commute(
    c: ClientView,
    outgoing: Seq<char>,
    incoming: Seq<char>,
    t1: u64,
    t2: u64,
)
    requires
        in_session(c),
        c.commands.len() > 0,
        c.commands.first() == CtrlView::SendText(outgoing),
    ensures
        ({
            let arrival = InputView::Stream(Some(FrameView::Text(incoming)));
            let (a1, sent_first) = client_step(c, InputView::Command, t1);
            let (a2, then_received) = client_step(a1, arrival, t2);
            let (b1, received_first) = client_step(c, arrival, t1);
            let (b2, then_sent) = client_step(b1, InputView::Command, t2);
            &&& a2 == b2
            &&& a2 == ClientView {
                bus: bus_publish(c.bus, EventView::Text(incoming)),
                commands: c.commands.drop_first(),
                ..c
            }
            &&& sent_first + then_received == seq![OutputView::Send(FrameView::Text(outgoing))]
            &&& received_first + then_sent == seq![OutputView::Send(FrameView::Text(outgoing))]
        }),
{
    let publish = EffectView::Publish(EventView::Text(incoming));
    let send = EffectView::Send(FrameView::Text(outgoing));
    let none = Seq::<OutputView>::empty();
    let one = seq![OutputView::Send(FrameView::Text(outgoing))];
    lemma_one_effect(c.bus, publish);
    lemma_one_effect(c.bus, send);
    lemma_one_effect(bus_publish(c.bus, EventView::Text(incoming)), send);
    assert(one + none =~= one);
    assert(none + one =~= one);
}

/// What the client asks for when a session ends without a frame of its
/// own: the close frame is handed to the shell, the bus stays as it is, and
/// the teardown follows.
pub proof fn lemma_close_and_teardown(bus: BusView)
    ensures
        apply_effects(bus, seq![EffectView::Send(FrameView::Close)]) == (
            bus,
            seq![OutputView::Send(FrameView::Close)],
        ),
        seq![OutputView::Send(FrameView::Close)] + seq![OutputView::Teardown] == seq![
            OutputView::Send(FrameView::Close),
            OutputView::Teardown,
        ],
{
    lemma_one_effect(bus, EffectView::Send(FrameView::Close));
    assert(seq![OutputView::Send(FrameView::Close)] + seq![OutputView::Teardown] =~= seq![
        OutputView::Send(FrameView::Close),
        OutputView::Teardown,
    ]);
}

/// A client that has stopped stays stopped: whatever the shell reports, the
/// client does not change and asks for nothing.
pub proof fn lemma_stopped_client_is_inert(c: ClientView, script: Seq<Timed>)
    requires
        c.supervisor.phase is Terminated,
    ensures
        client_run(c, script) == (c, Seq::<OutputView>::empty()),
    decreases script.len(),
{
    if script.len() > 0 {
        lemma_stopped_client_is_inert(c, script.drop_last());
        assert(Seq::<OutputView>::empty() + Seq::<OutputView>::empty() =~= Seq::<
            OutputView,
        >::empty());
    }
}

/// `Exit` stops the client. When the running session takes `Exit` up, it
/// sends one close frame and the connection is torn down; when the
/// connection is gone the client finishes with `CallerExit`; and whatever is
/// reported after that, no connect attempt is asked for again.
pub proof fn lemma_exit_stops_client(c: ClientView, now: u64, gone: u64, later: Seq<Timed>)
    requires
        in_session(c),
        c.commands.len() > 0,
        c.commands.first() == CtrlView::Exit,
    ensures
        ({
            let (closing, first) = client_step(c, InputView::Command, now);
            let (stopped, second) = client_step(closing, InputView::Closed, gone);
            let (end, rest) = client_run(stopped, later);
            &&& first == seq![OutputView::Send(FrameView::Close), OutputView::Teardown]
            &&& closing.supervisor.phase == Phase::Closing { caller_exit: true }
            &&& second == seq![OutputView::Finish(Outcome::CallerExit)]
            &&& stopped.supervisor.phase == Phase::Terminated(Outcome::CallerExit)
            &&& stopped.session.is_none()
            &&& end == stopped
            &&& rest == Seq::<OutputView>::empty()
        }),
{
    lemma_close_and_teardown(c.bus);
    let closing = client_step(c, InputView::Command, now).0;
    let stopped = client_step(closing, InputView::Closed, gone).0;
    lemma_stopped_client_is_inert(stopped, later);
}

/// A silent peer is given up and the client tries again. When the
/// keep-alive timer ticks and no ping came for longer than `close_after`, the
/// session ends: one close frame is sent and the connection is torn down.
/// When the connection is gone the client pauses for `retry_interval`. When
/// the pause is over it asks for a new connect attempt if the retry budget
/// is not spent, and finishes with `Exhausted` if it is.
pub proof fn lemma_silent_peer_is_dropped_and_retried(
    c: ClientView,
    now: u64,
    gone: u64,
    fired: u64,
)
    requires
        in_session(c),
        keepalive_expired(c.session.unwrap().last_ping, now, c.session.unwrap().close_after),
    ensures
        ({
            let (closing, first) = client_step(c, InputView::Tick, now);
            let (waiting, second) = client_step(closing, InputView::Closed, gone);
            let (next, third) = client_step(waiting, InputView::RetryTimerFired, fired);
            &&& first == seq![OutputView::Send(FrameView::Close), OutputView::Teardown]
            &&& closing.supervisor.phase == Phase::Closing { caller_exit: false }
            &&& second == seq![OutputView::Sleep(c.supervisor.retry_interval)]
            &&& waiting.supervisor.phase == Phase::Backoff
            &&& waiting.session.is_none()
            &&& if exhausted(c.supervisor.retry_max_count, bump(c.supervisor.retries)) {
                &&& third == seq![OutputView::Finish(Outcome::Exhausted)]
                &&& next.supervisor.phase == Phase::Terminated(Outcome::Exhausted)
            } else {
                &&& third == seq![OutputView::Connect(c.url)]
                &&& next.supervisor.phase == Phase::Connecting
            }
        }),
{
    lemma_close_and_teardown(c.bus);
}

/// Whether supervisor and session agree, and the bus is the client's own:
/// there is a running session exactly while the supervisor is connected, an
/// ended one exactly while the connection is being torn down, and none
/// otherwise; and each subscriber has room for `BUS_CAPACITY` events.
pub open spec fn consistent(c: ClientView) -> bool {
    &&& c.bus.capacity == BUS_CAPACITY
    &&& match c.supervisor.phase {
        Phase::Connected => c.session matches Some(s) && s.status == SessionStatus::Running,
        Phase::Closing { caller_exit } => c.session matches Some(s) && s.status
            == SessionStatus::Ended { caller_exit },
        _ => c.session.is_none(),
    }
}

/// There is never more than the one session that the supervisor knows of,
/// and the capacity of the bus is fixed: a new client is consistent, and
/// `connect`, a new subscription and every step keep it so. No step takes a
/// subscription away.
pub proof fn lemma_client_stays_consistent(
    c: ClientView,
    input: InputView,
    now: u64,
    url: Seq<char>,
    close_after: u64,
    retry_interval: u64,
    retry_max_count: Option<u32>,
)
    requires
        consistent(c),
    ensures
        consistent(new_client()),
        consistent(client_connect(c, url, close_after, retry_interval, retry_max_count).0),
        consistent(client_subscribe(c)),
        consistent(client_step(c, input, now).0),
        client_step(c, input, now).0.bus.slots.len() == c.bus.slots.len(),
{
    if supervisor_event(input).is_none() && in_session(c) {
        match session_event(input, c.commands) {
            Some((event, _)) => {
                let effects = session_step(c.session.unwrap(), event, now, c.token).1;
                lemma_effects_keep_subscriptions(c.bus, effects);
            },
            None => {},
        }
    }
}

} // verus!
