use websocket_rs::{
    actor_step, decode, exhausted, finish_enqueue, parse_socket_address, ActorAction, ActorEvent,
    ActorPhase, CloseFrame, CloseRecord, Command, Completion, Delivery, Frame, Inbound, Payload, ReadyOutcome,
    RecvMode, WsError, enqueue_path, EnqueueAttempt, Enqueued,
};

#[test]
fn address_splits_at_last_colon() {
    assert_eq!(parse_socket_address("127.0.0.1:8080"), Some(("127.0.0.1".to_string(), 8080)));
    assert_eq!(parse_socket_address("[::1]:9000"), Some(("[::1]".to_string(), 9000)));
    assert_eq!(parse_socket_address("a:b:12"), Some(("a:b".to_string(), 12)));
    assert_eq!(parse_socket_address(":0"), Some(("".to_string(), 0)));
}

#[test]
fn address_port_reads_like_u16_from_str() {
    assert_eq!(parse_socket_address("h:+80"), Some(("h".to_string(), 80)));
    assert_eq!(parse_socket_address("h:65535"), Some(("h".to_string(), 65535)));
    assert_eq!(parse_socket_address("h:0065535"), Some(("h".to_string(), 65535)));
    assert_eq!(parse_socket_address("h:65536"), None);
    assert_eq!(parse_socket_address("h:99999999999"), None);
    assert_eq!(parse_socket_address("h:"), None);
    assert_eq!(parse_socket_address("h:+"), None);
    assert_eq!(parse_socket_address("h:-1"), None);
    assert_eq!(parse_socket_address("h:8a"), None);
    assert_eq!(parse_socket_address("h: 80"), None);
    assert_eq!(parse_socket_address("no-port"), None);
    assert_eq!(parse_socket_address(""), None);
    for s in ["1:+7", "x:123", "x:65536", "x:+", "x:-0", "x:00"] {
        let std_way = s.rsplit_once(':').and_then(|(h, p)| p.parse::<u16>().ok().map(|p| (h.to_string(), p)));
        assert_eq!(parse_socket_address(s), std_way);
    }
}

#[test]
fn ready_outcome_is_taken_once() {
    let mut ok: ReadyOutcome<u32, String> = ReadyOutcome::succeeded(5);
    assert!(!ok.is_exhausted());
    assert_eq!(ok.take(), Some(Ok(5)));
    assert!(ok.is_exhausted());
    assert_eq!(ok.take(), None);
    let mut err: ReadyOutcome<u32, String> = ReadyOutcome::failed("boom".to_string());
    assert_eq!(err.take(), Some(Err("boom".to_string())));
    assert_eq!(err.take(), None);
}

#[test]
fn completion_resolves_only_once() {
    let mut c: Completion<u32, String> = Completion::new();
    assert!(!c.is_resolved());
    assert!(c.resolve(Ok(1)));
    assert!(c.is_resolved());
    assert!(!c.resolve(Err("second".to_string())));
    assert!(c.is_resolved());
}

#[test]
fn actor_close_command_enters_drain_phase() {
    let (p, a) = actor_step(ActorPhase::Running, ActorEvent::Command(Command::Close));
    assert_eq!(p, ActorPhase::Draining);
    assert!(matches!(a, ActorAction::Write(Frame::Close(None))));
    let (p, a) = actor_step(ActorPhase::Draining, ActorEvent::Received(Inbound::Frame(Frame::Text("x".to_string()))));
    assert_eq!(p, ActorPhase::Draining);
    assert!(matches!(a, ActorAction::Discard));
    let (p, a) = actor_step(
        ActorPhase::Draining,
        ActorEvent::Received(Inbound::Frame(Frame::Close(Some(CloseFrame { code: 1000, reason: String::new() })))),
    );
    assert_eq!(p, ActorPhase::Stopped);
    assert!(matches!(a, ActorAction::Shutdown));
    let (p, a) = actor_step(ActorPhase::Draining, ActorEvent::Received(Inbound::TransportError("e".to_string())));
    assert_eq!(p, ActorPhase::Stopped);
    assert!(matches!(a, ActorAction::Shutdown));
    let (p, a) = actor_step(ActorPhase::Draining, ActorEvent::StreamEnded);
    assert_eq!(p, ActorPhase::Stopped);
    assert!(matches!(a, ActorAction::Shutdown));
}

#[test]
fn actor_forwards_frames_and_stops_on_every_exit() {
    let (p, a) = actor_step(ActorPhase::Running, ActorEvent::Received(Inbound::Frame(Frame::Binary(vec![3]))));
    assert_eq!(p, ActorPhase::Running);
    assert!(matches!(a, ActorAction::Forward(Inbound::Frame(Frame::Binary(ref b))) if b == &vec![3]));
    let (p, a) = actor_step(ActorPhase::Running, ActorEvent::Received(Inbound::TransportError("eof".to_string())));
    assert_eq!(p, ActorPhase::Stopped);
    assert!(matches!(a, ActorAction::ForwardAndShutdown(Inbound::TransportError(ref e)) if e == "eof"));
    for ev in [ActorEvent::CommandsClosed, ActorEvent::StreamEnded, ActorEvent::ForwardRefused] {
        let (p, a) = actor_step(ActorPhase::Running, ev);
        assert_eq!(p, ActorPhase::Stopped);
        assert!(matches!(a, ActorAction::Shutdown));
    }
    let (p, a) = actor_step(ActorPhase::Stopped, ActorEvent::Command(Command::Text("t".to_string())));
    assert_eq!(p, ActorPhase::Stopped);
    assert!(matches!(a, ActorAction::Discard));
}

#[test]
fn actor_writes_data_commands_as_frames_of_same_kind() {
    let (p, a) = actor_step(ActorPhase::Running, ActorEvent::Command(Command::Pong(vec![4])));
    assert_eq!(p, ActorPhase::Running);
    assert!(matches!(a, ActorAction::Write(Frame::Pong(ref d)) if d == &vec![4]));
    let (_, a) = actor_step(ActorPhase::Running, ActorEvent::Command(Command::Text("t".to_string())));
    assert!(matches!(a, ActorAction::Write(Frame::Text(ref s)) if s == "t"));
}

#[test]
fn decode_maps_each_frame_kind() {
    assert!(matches!(decode(RecvMode::Single, Inbound::Frame(Frame::Text("t".to_string()))), Ok(Delivery::Payload(Payload::Text(ref s))) if s == "t"));
    assert!(matches!(decode(RecvMode::Single, Inbound::Frame(Frame::Ping(vec![]))), Ok(Delivery::Empty)));
    assert!(matches!(decode(RecvMode::Single, Inbound::Frame(Frame::Close(None))), Err(WsError::ConnectionClosedByPeer)));
    assert!(matches!(decode(RecvMode::Iteration, Inbound::Frame(Frame::Close(None))), Ok(Delivery::End)));
    assert!(matches!(decode(RecvMode::Iteration, Inbound::Frame(Frame::Raw)), Err(WsError::UnsupportedMessage)));
    assert!(matches!(exhausted(RecvMode::Single), Err(WsError::ConnectionClosed)));
    assert!(matches!(exhausted(RecvMode::Iteration), Ok(Delivery::End)));
}

#[test]
fn drain_ends_only_on_close_or_error() {
    assert!(Inbound::Frame(Frame::Close(None)).ends_drain());
    assert!(Inbound::TransportError("x".to_string()).ends_drain());
    assert!(!Inbound::Frame(Frame::Text("x".to_string())).ends_drain());
    assert!(!Inbound::Frame(Frame::Pong(vec![])).ends_drain());
}

#[test]
fn enqueue_path_follows_attempt() {
    assert!(matches!(enqueue_path(EnqueueAttempt::Accepted), Ok(Enqueued::Immediate)));
    assert!(matches!(enqueue_path(EnqueueAttempt::Full(Command::Close)), Ok(Enqueued::Backpressure(Command::Close))));
    assert!(matches!(enqueue_path(EnqueueAttempt::Closed(Command::Close)), Err(WsError::NotConnected)));
}

#[test]
fn backpressure_wait_result() {
    assert!(finish_enqueue(true).is_ok());
    assert!(matches!(finish_enqueue(false), Err(WsError::SendFailed(_))));
}

#[test]
fn payload_becomes_command_and_frame() {
    assert!(matches!(Command::from_payload(Payload::Binary(vec![1])), Command::Binary(ref b) if b == &vec![1]));
    assert!(matches!(Command::Text("q".to_string()).into_frame(), Frame::Text(ref s) if s == "q"));
    assert!(matches!(Command::Close.into_frame(), Frame::Close(None)));
}

#[test]
fn close_record_keeps_first_close_frame() {
    let mut r = CloseRecord::new();
    r.absorb(&Inbound::Frame(Frame::Text("x".to_string())));
    r.absorb(&Inbound::Frame(Frame::Close(None)));
    assert_eq!(r.code(), None);
    assert_eq!(r.reason(), None);
    r.absorb(&Inbound::Frame(Frame::Close(Some(CloseFrame { code: 1001, reason: "going away".to_string() }))));
    r.absorb(&Inbound::Frame(Frame::Close(Some(CloseFrame { code: 1000, reason: "bye".to_string() }))));
    assert_eq!(r.code(), Some(1001));
    assert_eq!(r.reason(), Some("going away".to_string()));
}
