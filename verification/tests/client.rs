use mystar::admin::AdminWSContext;
use mystar::bus::RecvError;
use mystar::client::{
    after_read, decode_event, ClientError, Input, Output, ReadNext, SendError, WSClient,
    BUS_CAPACITY,
};
use mystar::message::{EventMessage, Frame, ProtocolAnomaly, WSClientCtrl};
use mystar::option::WSOption;
use mystar::supervisor::{ConnectionState, Outcome};
use mystar::transform::{TransformError, WSCell};

fn option(retry_max_count: Option<u32>) -> WSOption {
    WSOption {
        url: "ws://127.0.0.1:9/ws".to_string(),
        close_after: 1_000,
        retry_interval: 100,
        retry_max_count,
    }
}

fn connected_client() -> WSClient<AdminWSContext> {
    let mut client = WSClient::new();
    client.connect(&option(None));
    assert!(client.handle(Input::ConnectSucceeded, 0).is_empty());
    client
}

fn text(s: &str) -> Input {
    Input::Stream(Ok(Frame::Text(s.to_string())))
}

/// A plain word on the wire; `"bad"` cannot be read or written.
#[derive(Debug, PartialEq)]
enum Word {
    Opened,
    Closed,
    Said(String),
    Bytes(Vec<u8>),
}

impl WSCell<AdminWSContext> for Word {
    fn to_string(&self, context: &Option<AdminWSContext>) -> Result<String, TransformError> {
        match (self, context) {
            (Word::Said(s), _) if s == "bad" => Err(TransformError::Encode),
            (Word::Said(s), Some(c)) => Ok(format!("{}:{}", c.token, s)),
            (Word::Said(s), None) => Ok(s.clone()),
            _ => Err(TransformError::Encode),
        }
    }

    fn to_vec(&self, context: &Option<AdminWSContext>) -> Result<Vec<u8>, TransformError> {
        self.to_string(context).map(|s| s.into_bytes())
    }

    fn from_str(text: &str, _: &Option<AdminWSContext>) -> Result<Self, TransformError> {
        if text == "bad" {
            Err(TransformError::Decode)
        } else {
            Ok(Word::Said(text.to_string()))
        }
    }

    fn from_slice(bytes: &[u8], _: &Option<AdminWSContext>) -> Result<Self, TransformError> {
        Ok(Word::Bytes(bytes.to_vec()))
    }

    fn open_cell(_: &Option<AdminWSContext>) -> Result<Self, TransformError> {
        Ok(Word::Opened)
    }

    fn close_cell(_: &Option<AdminWSContext>) -> Result<Self, TransformError> {
        Ok(Word::Closed)
    }
}

#[test]
fn connect_asks_for_the_first_attempt_once() {
    let mut client: WSClient<AdminWSContext> = WSClient::new();
    assert_eq!(client.connection_state(), ConnectionState::Disconnected);
    assert_eq!(
        client.connect(&option(None)),
        vec![Output::Connect("ws://127.0.0.1:9/ws".to_string())]
    );
    assert_eq!(client.connection_state(), ConnectionState::Connecting);
    assert!(client.connect(&option(None)).is_empty());
}

#[test]
fn nothing_happens_before_connect() {
    let mut client: WSClient<AdminWSContext> = WSClient::new();
    assert!(client.handle(Input::ConnectSucceeded, 0).is_empty());
    assert!(client.handle(Input::RetryTimerFired, 0).is_empty());
    assert!(client.handle(text("x"), 0).is_empty());
    assert_eq!(client.connection_state(), ConnectionState::Disconnected);
    assert_eq!(client.outcome(), None);
}

#[test]
fn unreachable_url_exhausts_the_budget_after_three_attempts() {
    let mut client: WSClient<AdminWSContext> = WSClient::new();
    let mut outputs = client.connect(&option(Some(2)));
    let mut now = 0;
    for _ in 0..3 {
        outputs.extend(client.handle(Input::ConnectFailed, now));
        now += 100;
        outputs.extend(client.handle(Input::RetryTimerFired, now));
    }
    let url = "ws://127.0.0.1:9/ws".to_string();
    assert_eq!(
        outputs,
        vec![
            Output::Connect(url.clone()),
            Output::Sleep(100),
            Output::Connect(url.clone()),
            Output::Sleep(100),
            Output::Connect(url),
            Output::Sleep(100),
            Output::Finish(Outcome::Exhausted),
        ]
    );
    assert_eq!(now, 300);
    assert_eq!(client.outcome(), Some(Outcome::Exhausted));
    assert!(client.handle(Input::RetryTimerFired, 400).is_empty());
    assert!(client.handle(Input::ConnectSucceeded, 400).is_empty());
}

#[test]
fn subscriber_before_connect_sees_open_and_late_subscriber_does_not() {
    let mut client: WSClient<AdminWSContext> = WSClient::new();
    let a = client.subscribe();
    client.connect(&option(None));
    client.handle(Input::ConnectSucceeded, 0);
    let b = client.subscribe();
    client.handle(text("first"), 1);
    client.handle(Input::Stream(Ok(Frame::Binary(vec![7, 7]))), 2);
    assert_eq!(client.recv(a), Ok(EventMessage::Open()));
    assert_eq!(client.recv(a), Ok(EventMessage::Text("first".to_string())));
    assert_eq!(client.recv(a), Ok(EventMessage::Binary(vec![7, 7])));
    assert_eq!(client.recv(a), Err(RecvError::Empty));
    assert_eq!(client.recv(b), Ok(EventMessage::Text("first".to_string())));
    assert_eq!(client.recv(b), Ok(EventMessage::Binary(vec![7, 7])));
    assert_eq!(client.recv(b), Err(RecvError::Empty));
}

#[test]
fn text_frames_reach_a_subscriber_with_room_in_order() {
    let mut client = connected_client();
    let id = client.subscribe();
    for i in 0..BUS_CAPACITY {
        assert!(client.handle(text(&format!("m{i}")), i as u64).is_empty());
    }
    for i in 0..BUS_CAPACITY {
        assert_eq!(client.recv(id), Ok(EventMessage::Text(format!("m{i}"))));
    }
    assert_eq!(client.recv(id), Err(RecvError::Empty));
    assert_eq!(client.connection_state(), ConnectionState::Connected);
}

#[test]
fn one_frame_too_many_costs_the_oldest() {
    let mut client = connected_client();
    let id = client.subscribe();
    for i in 0..=BUS_CAPACITY {
        client.handle(text(&format!("m{i}")), 0);
    }
    assert_eq!(client.recv(id), Err(RecvError::Lagged(1)));
    assert_eq!(client.recv(id), Ok(EventMessage::Text("m1".to_string())));
}

#[test]
fn send_and_inbound_text_are_both_observed_in_either_order() {
    for command_first in [true, false] {
        let mut client = connected_client();
        let id = client.subscribe();
        client.submit(WSClientCtrl::SendText("ping".to_string()));
        let mut outputs = Vec::new();
        if command_first {
            outputs.extend(client.handle(Input::Command, 1));
            outputs.extend(client.handle(text("pong"), 1));
        } else {
            outputs.extend(client.handle(text("pong"), 1));
            outputs.extend(client.handle(Input::Command, 1));
        }
        assert_eq!(outputs, vec![Output::Send(Frame::Text("ping".to_string()))]);
        assert_eq!(client.recv(id), Ok(EventMessage::Text("pong".to_string())));
        assert_eq!(client.recv(id), Err(RecvError::Empty));
        assert_eq!(client.queued(), 0);
    }
}

#[test]
fn exit_closes_the_session_and_stops_the_client() {
    let mut client = connected_client();
    assert_eq!(client.close(), Ok(()));
    assert_eq!(
        client.handle(Input::Command, 5),
        vec![Output::Send(Frame::Close), Output::Teardown]
    );
    assert_eq!(client.connection_state(), ConnectionState::Closing);
    assert!(client.handle(text("late"), 6).is_empty());
    assert_eq!(client.handle(Input::Closed, 7), vec![Output::Finish(Outcome::CallerExit)]);
    assert_eq!(client.outcome(), Some(Outcome::CallerExit));
    assert_eq!(client.connection_state(), ConnectionState::Disconnected);
    for input in [
        Input::RetryTimerFired,
        Input::ConnectFailed,
        Input::ConnectSucceeded,
        Input::Closed,
        Input::Tick,
        Input::Command,
        Input::SendFailure,
    ] {
        assert!(client.handle(input, 100).is_empty());
    }
    assert_eq!(client.outcome(), Some(Outcome::CallerExit));
}

#[test]
fn silent_peer_is_dropped_and_the_client_reconnects() {
    let mut client = connected_client();
    assert!(client.handle(Input::Tick, 1_000).is_empty());
    assert_eq!(
        client.handle(Input::Tick, 1_001),
        vec![Output::Send(Frame::Close), Output::Teardown]
    );
    assert_eq!(client.handle(Input::Closed, 1_002), vec![Output::Sleep(100)]);
    assert_eq!(
        client.handle(Input::RetryTimerFired, 1_102),
        vec![Output::Connect("ws://127.0.0.1:9/ws".to_string())]
    );
    assert_eq!(client.connection_state(), ConnectionState::Connecting);
}

#[test]
fn silent_peer_with_a_spent_budget_exhausts_the_client() {
    let mut client: WSClient<AdminWSContext> = WSClient::new();
    client.connect(&option(Some(0)));
    client.handle(Input::ConnectSucceeded, 0);
    client.handle(Input::Tick, 5_000);
    client.handle(Input::Closed, 5_000);
    assert_eq!(
        client.handle(Input::RetryTimerFired, 5_100),
        vec![Output::Finish(Outcome::Exhausted)]
    );
}

#[test]
fn ping_keeps_the_session_alive() {
    let mut client = connected_client();
    assert!(client.handle(Input::Stream(Ok(Frame::Ping)), 900).is_empty());
    assert!(client.handle(Input::Tick, 1_900).is_empty());
    assert_eq!(client.connection_state(), ConnectionState::Connected);
}

#[test]
fn peer_close_publishes_nothing_and_the_next_session_publishes_open_again() {
    let mut client = connected_client();
    let id = client.subscribe();
    assert_eq!(
        client.handle(Input::Stream(Ok(Frame::Close)), 1),
        vec![Output::Send(Frame::Close), Output::Teardown]
    );
    client.handle(Input::Closed, 2);
    client.handle(Input::RetryTimerFired, 102);
    client.handle(Input::ConnectSucceeded, 103);
    client.handle(text("again"), 104);
    assert_eq!(client.recv(id), Ok(EventMessage::Open()));
    assert_eq!(client.recv(id), Ok(EventMessage::Text("again".to_string())));
    assert_eq!(client.recv(id), Err(RecvError::Empty));
}

#[test]
fn send_failure_tears_the_session_down() {
    let mut client = connected_client();
    assert_eq!(
        client.handle(Input::SendFailure, 1),
        vec![Output::Send(Frame::Close), Output::Teardown]
    );
    assert_eq!(client.handle(Input::Closed, 2), vec![Output::Sleep(100)]);
}

#[test]
fn anomalies_are_skipped() {
    let mut client = connected_client();
    let id = client.subscribe();
    assert!(client.handle(Input::Stream(Err(ProtocolAnomaly)), 1).is_empty());
    assert!(client.handle(Input::Stream(Ok(Frame::Pong)), 1).is_empty());
    assert_eq!(client.recv(id), Err(RecvError::Empty));
    assert_eq!(client.connection_state(), ConnectionState::Connected);
}

#[test]
fn commands_queued_while_disconnected_go_to_the_next_session_in_order() {
    let mut client: WSClient<AdminWSContext> = WSClient::new();
    client.submit(WSClientCtrl::SendText("one".to_string()));
    client.connect(&option(None));
    client.submit(WSClientCtrl::SendBinary(vec![2]));
    assert!(client.handle(Input::Command, 0).is_empty());
    assert_eq!(client.queued(), 2);
    client.handle(Input::ConnectFailed, 0);
    client.submit(WSClientCtrl::SendText("three".to_string()));
    client.handle(Input::RetryTimerFired, 100);
    assert!(client.handle(Input::Command, 100).is_empty());
    client.handle(Input::ConnectSucceeded, 101);
    assert_eq!(
        client.handle(Input::Command, 102),
        vec![Output::Send(Frame::Text("one".to_string()))]
    );
    assert_eq!(client.handle(Input::Command, 103), vec![Output::Send(Frame::Binary(vec![2]))]);
    assert_eq!(
        client.handle(Input::Command, 104),
        vec![Output::Send(Frame::Text("three".to_string()))]
    );
    assert!(client.handle(Input::Command, 105).is_empty());
    assert_eq!(client.queued(), 0);
}

#[test]
fn numbered_command_takes_its_header_from_the_context() {
    let mut client = connected_client();
    client.submit(WSClientCtrl::Send((3, "[1]".to_string())));
    client.submit(WSClientCtrl::Send((4, "[2]".to_string())));
    assert_eq!(
        client.handle(Input::Command, 1),
        vec![Output::Send(Frame::Text("{\"command\":3,\"data\":[1]}".to_string()))]
    );
    client.context(AdminWSContext { token: "tok".to_string() });
    assert_eq!(
        client.handle(Input::Command, 1),
        vec![Output::Send(Frame::Text(
            "{\"command\":4,\"header\":{\"token\":\"tok\"},\"data\":[2]}".to_string()
        ))]
    );
}

#[test]
fn typed_send_queues_the_wire_text() {
    let mut client = connected_client();
    assert_eq!(client.send(&Word::Said("hi".to_string())), Ok(()));
    client.context(AdminWSContext { token: "t".to_string() });
    assert_eq!(client.send(&Word::Said("ho".to_string())), Ok(()));
    assert_eq!(
        client.send(&Word::Said("bad".to_string())),
        Err(SendError::Transform(TransformError::Encode))
    );
    assert_eq!(client.queued(), 2);
    assert_eq!(
        client.handle(Input::Command, 1),
        vec![Output::Send(Frame::Text("hi".to_string()))]
    );
    assert_eq!(
        client.handle(Input::Command, 1),
        vec![Output::Send(Frame::Text("t:ho".to_string()))]
    );
}

#[test]
fn typed_read_goes_through_the_hooks() {
    let mut client: WSClient<AdminWSContext> = WSClient::new();
    let id = client.subscribe();
    assert_eq!(client.inner_recv::<Word>(id), Err(ClientError::Bus(RecvError::Empty)));
    assert_eq!(client.inner_recv::<Word>(id + 1), Err(ClientError::Bus(RecvError::Closed)));
    client.connect(&option(None));
    client.handle(Input::ConnectSucceeded, 0);
    client.handle(text("hello"), 1);
    client.handle(text("bad"), 1);
    client.handle(Input::Stream(Ok(Frame::Binary(vec![1, 2]))), 1);
    assert_eq!(client.inner_recv::<Word>(id), Ok(Word::Opened));
    assert_eq!(client.inner_recv::<Word>(id), Ok(Word::Said("hello".to_string())));
    assert_eq!(
        client.inner_recv::<Word>(id),
        Err(ClientError::Transform(TransformError::Decode))
    );
    assert_eq!(client.inner_recv::<Word>(id), Ok(Word::Bytes(vec![1, 2])));
    assert_eq!(client.inner_recv::<Word>(id), Err(ClientError::Bus(RecvError::Empty)));
}

#[test]
fn get_context_returns_what_was_set() {
    let mut client: WSClient<AdminWSContext> = WSClient::new();
    assert_eq!(client.get_context(), &None);
    client.context(AdminWSContext { token: "abc".to_string() });
    assert_eq!(client.get_context(), &Some(AdminWSContext { token: "abc".to_string() }));
}

#[test]
fn options_and_events_can_be_copied() {
    let o = option(Some(3));
    assert_eq!(o.clone(), o);
    for event in [
        EventMessage::Open(),
        EventMessage::Close(),
        EventMessage::Text("t".to_string()),
        EventMessage::Binary(vec![1]),
    ] {
        assert_eq!(event.clone(), event);
    }
}

#[test]
fn written_text_is_queued_and_a_failure_is_passed_on() {
    let mut client = connected_client();
    assert_eq!(client.send_written(Ok("abc".to_string())), Ok(()));
    assert_eq!(
        client.send_written(Err(TransformError::Encode)),
        Err(SendError::Transform(TransformError::Encode))
    );
    assert_eq!(client.queued(), 1);
    assert_eq!(
        client.handle(Input::Command, 1),
        vec![Output::Send(Frame::Text("abc".to_string()))]
    );
}

#[test]
fn send_without_a_session_fails_and_keeps_nothing() {
    let mut client: WSClient<AdminWSContext> = WSClient::new();
    assert!(!client.has_session());
    assert_eq!(client.send(&Word::Said("hi".to_string())), Err(SendError::NoSession));
    assert_eq!(client.send(&Word::Said("bad".to_string())), Err(SendError::NoSession));
    assert_eq!(client.send_written(Ok("abc".to_string())), Err(SendError::NoSession));
    assert_eq!(client.close(), Err(SendError::NoSession));
    assert_eq!(client.queued(), 0);
    client.connect(&option(None));
    assert_eq!(client.send(&Word::Said("hi".to_string())), Err(SendError::NoSession));
    client.handle(Input::ConnectFailed, 0);
    assert_eq!(client.send(&Word::Said("hi".to_string())), Err(SendError::NoSession));
    client.handle(Input::RetryTimerFired, 100);
    client.handle(Input::ConnectSucceeded, 101);
    assert!(client.has_session());
    assert!(client.handle(Input::Command, 102).is_empty());
    assert_eq!(client.send(&Word::Said("hi".to_string())), Ok(()));
    assert_eq!(client.queued(), 1);
}

#[test]
fn send_between_sessions_fails() {
    let mut client = connected_client();
    client.handle(Input::Stream(Ok(Frame::Close)), 1);
    assert!(!client.has_session());
    assert_eq!(client.send(&Word::Said("hi".to_string())), Err(SendError::NoSession));
    assert_eq!(client.close(), Err(SendError::NoSession));
    client.handle(Input::Closed, 2);
    assert_eq!(client.send(&Word::Said("hi".to_string())), Err(SendError::NoSession));
    assert_eq!(client.queued(), 0);
}

#[test]
fn events_are_read_through_the_hook_that_fits() {
    let context = Some(AdminWSContext { token: "t".to_string() });
    assert_eq!(decode_event::<_, Word>(&EventMessage::Open(), &context), Ok(Word::Opened));
    assert_eq!(decode_event::<_, Word>(&EventMessage::Close(), &context), Ok(Word::Closed));
    assert_eq!(
        decode_event::<_, Word>(&EventMessage::Text("x".to_string()), &context),
        Ok(Word::Said("x".to_string()))
    );
    assert_eq!(
        decode_event::<_, Word>(&EventMessage::Text("bad".to_string()), &context),
        Err(TransformError::Decode)
    );
    assert_eq!(
        decode_event::<_, Word>(&EventMessage::Binary(vec![3]), &context),
        Ok(Word::Bytes(vec![3]))
    );
}

#[test]
fn a_reader_goes_on_after_lag_and_unreadable_events() {
    assert_eq!(after_read(&Ok::<Word, ClientError>(Word::Opened)), ReadNext::Dispatch);
    assert_eq!(
        after_read(&Err::<Word, ClientError>(ClientError::Bus(RecvError::Lagged(3)))),
        ReadNext::Skip
    );
    assert_eq!(
        after_read(&Err::<Word, ClientError>(ClientError::Transform(TransformError::Decode))),
        ReadNext::Skip
    );
    assert_eq!(
        after_read(&Err::<Word, ClientError>(ClientError::Bus(RecvError::Empty))),
        ReadNext::Wait
    );
    assert_eq!(
        after_read(&Err::<Word, ClientError>(ClientError::Bus(RecvError::Closed))),
        ReadNext::Stop
    );
}

#[test]
fn early_subscriber_reads_open_then_frames_and_late_one_frames_only() {
    let mut client: WSClient<AdminWSContext> = WSClient::new();
    let early = client.subscribe();
    client.connect(&option(None));
    client.handle(Input::ConnectSucceeded, 0);
    let late = client.subscribe();
    let mut expected = Vec::new();
    for i in 0..(BUS_CAPACITY - 1) {
        if i % 2 == 0 {
            client.handle(text(&format!("t{i}")), i as u64);
            expected.push(EventMessage::Text(format!("t{i}")));
        } else {
            client.handle(Input::Stream(Ok(Frame::Binary(vec![i as u8]))), i as u64);
            expected.push(EventMessage::Binary(vec![i as u8]));
        }
    }
    assert_eq!(client.recv(early), Ok(EventMessage::Open()));
    for event in &expected {
        assert_eq!(client.recv(early).as_ref(), Ok(event));
        assert_eq!(client.recv(late).as_ref(), Ok(event));
    }
    assert_eq!(client.recv(early), Err(RecvError::Empty));
    assert_eq!(client.recv(late), Err(RecvError::Empty));
}
