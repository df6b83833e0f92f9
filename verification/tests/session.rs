use mystar::message::{EventMessage, Frame, ProtocolAnomaly, WSClientCtrl, WSMessage};
use mystar::session::{
    handle_ctrl, handle_msg, handle_stream_message, tell_json_apart, LoopFlow, SessionEffect,
    SessionEvent, SessionStatus, TransportSession,
};
use mystar::transform::WSClientHeader;

fn header(token: &str) -> Option<WSClientHeader> {
    Some(WSClientHeader { token: token.to_string() })
}

#[test]
fn text_and_binary_frames_are_published() {
    assert_eq!(
        handle_stream_message(Ok(Frame::Text("hello".to_string()))),
        (LoopFlow::Continue, Some(EventMessage::Text("hello".to_string())))
    );
    assert_eq!(
        handle_stream_message(Ok(Frame::Binary(vec![1, 2, 3]))),
        (LoopFlow::Continue, Some(EventMessage::Binary(vec![1, 2, 3])))
    );
}

#[test]
fn ping_is_noted_and_not_published() {
    assert_eq!(handle_stream_message(Ok(Frame::Ping)), (LoopFlow::Ping, None));
}

#[test]
fn close_frame_ends_the_loop_and_publishes_nothing() {
    assert_eq!(handle_stream_message(Ok(Frame::Close)), (LoopFlow::Break, None));
}

#[test]
fn anomalies_and_other_frames_are_skipped() {
    assert_eq!(handle_stream_message(Err(ProtocolAnomaly)), (LoopFlow::Continue, None));
    assert_eq!(handle_stream_message(Ok(Frame::Pong)), (LoopFlow::Continue, None));
    assert_eq!(handle_stream_message(Ok(Frame::Other)), (LoopFlow::Continue, None));
}

#[test]
fn exit_command_ends_the_session_without_a_frame_of_its_own() {
    assert_eq!(handle_ctrl(WSClientCtrl::Exit, &None), (true, None));
}

#[test]
fn send_commands_become_frames() {
    assert_eq!(
        handle_ctrl(WSClientCtrl::SendText("ping".to_string()), &None),
        (false, Some(Frame::Text("ping".to_string())))
    );
    assert_eq!(
        handle_ctrl(WSClientCtrl::SendBinary(vec![9, 8]), &header("t")),
        (false, Some(Frame::Binary(vec![9, 8])))
    );
}

#[test]
fn numbered_command_is_wrapped_in_an_envelope() {
    let ctrl = WSClientCtrl::Send((7, "{\"x\":1}".to_string()));
    assert_eq!(
        handle_ctrl(ctrl, &header("abc")),
        (
            false,
            Some(Frame::Text(
                "{\"command\":7,\"header\":{\"token\":\"abc\"},\"data\":{\"x\":1}}".to_string()
            ))
        )
    );
}

#[test]
fn numbered_command_without_header_has_no_header_member() {
    let ctrl = WSClientCtrl::Send((4294967295, "null".to_string()));
    assert_eq!(
        handle_ctrl(ctrl, &None),
        (false, Some(Frame::Text("{\"command\":4294967295,\"data\":null}".to_string())))
    );
}

#[test]
fn numbered_command_with_a_payload_that_is_not_json_is_dropped() {
    let ctrl = WSClientCtrl::Send((1, "{not json".to_string()));
    assert_eq!(handle_ctrl(ctrl, &header("abc")), (false, None));
    let empty = WSClientCtrl::Send((1, String::new()));
    assert_eq!(handle_ctrl(empty, &header("abc")), (false, None));
}

#[test]
fn inbound_text_and_bytes_arrive_unchanged() {
    for text in ["1", "{\"a\":[1,2]}", "hello there", ""] {
        assert_eq!(
            handle_msg(Frame::Text(text.to_string())),
            Some(WSMessage::Text(text.to_string()))
        );
    }
    for bytes in [b"[true,null]".to_vec(), vec![0xff, 0xfe, 0x00], Vec::new()] {
        assert_eq!(handle_msg(Frame::Binary(bytes.clone())), Some(WSMessage::Binary(bytes)));
    }
}

#[test]
fn text_is_told_apart_by_whether_it_is_json() {
    assert_eq!(
        tell_json_apart(WSMessage::Text("{\"a\":[1,2]}".to_string())),
        WSMessage::JSON("{\"a\":[1,2]}".to_string())
    );
    assert_eq!(tell_json_apart(WSMessage::Text("1".to_string())), WSMessage::JSON("1".to_string()));
    assert_eq!(
        tell_json_apart(WSMessage::Text("hello there".to_string())),
        WSMessage::Text("hello there".to_string())
    );
    assert_eq!(
        tell_json_apart(WSMessage::Text("{\"a\":1} trailing".to_string())),
        WSMessage::Text("{\"a\":1} trailing".to_string())
    );
}

#[test]
fn bytes_are_told_apart_by_whether_they_are_json() {
    assert_eq!(
        tell_json_apart(WSMessage::Binary(b"[true,null]".to_vec())),
        WSMessage::JSON("[true,null]".to_string())
    );
    assert_eq!(
        tell_json_apart(WSMessage::Binary(vec![0xff, 0xfe, 0x00])),
        WSMessage::Binary(vec![0xff, 0xfe, 0x00])
    );
    assert_eq!(
        tell_json_apart(WSMessage::Binary(b"plain".to_vec())),
        WSMessage::Binary(b"plain".to_vec())
    );
}

#[test]
fn what_is_neither_text_nor_bytes_is_not_looked_at() {
    assert_eq!(tell_json_apart(WSMessage::Open()), WSMessage::Open());
    assert_eq!(tell_json_apart(WSMessage::Close()), WSMessage::Close());
    assert_eq!(
        tell_json_apart(WSMessage::JSON("not even json".to_string())),
        WSMessage::JSON("not even json".to_string())
    );
}

#[test]
fn inbound_close_is_reported_and_control_frames_are_not() {
    assert_eq!(handle_msg(Frame::Close), Some(WSMessage::Close()));
    assert_eq!(handle_msg(Frame::Ping), None);
    assert_eq!(handle_msg(Frame::Pong), None);
    assert_eq!(handle_msg(Frame::Other), None);
}

#[test]
fn a_new_session_publishes_open() {
    let (session, effects) = TransportSession::connected(20_000, 5);
    assert_eq!(effects, vec![SessionEffect::Publish(EventMessage::Open())]);
    assert_eq!(session.status(), SessionStatus::Running);
    assert_eq!(session.last_ping(), 5);
}

#[test]
fn keepalive_expires_only_after_more_than_close_after() {
    let (session, _) = TransportSession::connected(1_000, 500);
    assert!(!session.is_expired(500));
    assert!(!session.is_expired(1_500));
    assert!(session.is_expired(1_501));
    assert!(!session.is_expired(0));
    assert!(session.is_expired(u64::MAX));
}

#[test]
fn a_tick_within_the_threshold_changes_nothing() {
    let (mut session, _) = TransportSession::connected(1_000, 0);
    assert!(session.step(SessionEvent::Tick, 1_000, &None).is_empty());
    assert_eq!(session.status(), SessionStatus::Running);
}

#[test]
fn a_silent_peer_ends_the_session_with_a_close_frame() {
    let (mut session, _) = TransportSession::connected(1_000, 0);
    let effects = session.step(SessionEvent::Tick, 1_001, &None);
    assert_eq!(effects, vec![SessionEffect::Send(Frame::Close)]);
    assert_eq!(session.status(), SessionStatus::Ended { caller_exit: false });
}

#[test]
fn a_ping_moves_the_deadline() {
    let (mut session, _) = TransportSession::connected(1_000, 0);
    assert!(session.step(SessionEvent::Stream(Ok(Frame::Ping)), 900, &None).is_empty());
    assert_eq!(session.last_ping(), 900);
    assert!(session.step(SessionEvent::Tick, 1_900, &None).is_empty());
    assert_eq!(
        session.step(SessionEvent::Tick, 1_901, &None),
        vec![SessionEffect::Send(Frame::Close)]
    );
}

#[test]
fn data_frames_do_not_move_the_deadline() {
    let (mut session, _) = TransportSession::connected(1_000, 0);
    session.step(SessionEvent::Stream(Ok(Frame::Text("x".to_string()))), 900, &None);
    assert_eq!(session.last_ping(), 0);
}

#[test]
fn exit_ends_the_session_as_the_callers_doing() {
    let (mut session, _) = TransportSession::connected(1_000, 0);
    let effects = session.step(SessionEvent::Ctrl(WSClientCtrl::Exit), 10, &None);
    assert_eq!(effects, vec![SessionEffect::Send(Frame::Close)]);
    assert_eq!(session.status(), SessionStatus::Ended { caller_exit: true });
}

#[test]
fn peer_close_ends_the_session_and_publishes_nothing() {
    let (mut session, _) = TransportSession::connected(1_000, 0);
    let effects = session.step(SessionEvent::Stream(Ok(Frame::Close)), 10, &None);
    assert_eq!(effects, vec![SessionEffect::Send(Frame::Close)]);
    assert_eq!(session.status(), SessionStatus::Ended { caller_exit: false });
}

#[test]
fn send_failure_ends_the_session() {
    let (mut session, _) = TransportSession::connected(1_000, 0);
    let effects = session.step(SessionEvent::SendFailure, 10, &None);
    assert_eq!(effects, vec![SessionEffect::Send(Frame::Close)]);
    assert_eq!(session.status(), SessionStatus::Ended { caller_exit: false });
}

#[test]
fn an_anomaly_does_not_end_the_session() {
    let (mut session, _) = TransportSession::connected(1_000, 0);
    assert!(session.step(SessionEvent::Stream(Err(ProtocolAnomaly)), 10, &None).is_empty());
    assert_eq!(session.status(), SessionStatus::Running);
}

#[test]
fn an_ended_session_takes_no_further_step() {
    let (mut session, _) = TransportSession::connected(1_000, 0);
    session.step(SessionEvent::SendFailure, 10, &None);
    assert!(session
        .step(SessionEvent::Stream(Ok(Frame::Text("late".to_string()))), 11, &None)
        .is_empty());
    assert!(session.step(SessionEvent::Ctrl(WSClientCtrl::Exit), 12, &None).is_empty());
    assert!(session.step(SessionEvent::Stream(Ok(Frame::Ping)), 13, &None).is_empty());
    assert_eq!(session.status(), SessionStatus::Ended { caller_exit: false });
    assert_eq!(session.last_ping(), 0);
}

#[test]
fn session_step_sends_the_frame_of_a_command() {
    let (mut session, _) = TransportSession::connected(1_000, 0);
    let effects = session.step(
        SessionEvent::Ctrl(WSClientCtrl::Send((2, "\"hi\"".to_string()))),
        1,
        &header("k"),
    );
    assert_eq!(
        effects,
        vec![SessionEffect::Send(Frame::Text(
            "{\"command\":2,\"header\":{\"token\":\"k\"},\"data\":\"hi\"}".to_string()
        ))]
    );
}
