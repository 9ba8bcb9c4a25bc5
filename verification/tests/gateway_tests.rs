use fluxer::error::ClientError;
use fluxer::gateway::{
    classify_close, connect_url, decode_frame, fresh_reconnect_delay_ms, heartbeat_jitter_ms,
    next_backoff_ms, opening_frame, process_frame, FrameKind, FrameOutcome, HeartbeatTick,
    LivenessState, OutboundFrame, ParsedFrame, ReconnectDecision, SequenceCursor, SessionState,
    DEFAULT_GATEWAY_URL,
};
use fluxer::json::parse_json;

fn parse(s: &str) -> serde_json::Value {
    parse_json(s).unwrap()
}

#[test]
fn cursor_tracks_maximum_of_increasing_sequence() {
    let mut c = SequenceCursor::new();
    assert_eq!(c.last_seq, None);
    for s in [1u64, 3, 7] {
        c.note(Some(s));
    }
    assert_eq!(c.last_seq, Some(7));
}

#[test]
fn cursor_never_regresses() {
    let mut c = SequenceCursor::new();
    c.note(Some(5));
    c.note(Some(3));
    assert_eq!(c.last_seq, Some(5));
    c.note(None);
    assert_eq!(c.last_seq, Some(5));
}

#[test]
fn unacked_heartbeat_becomes_zombie() {
    // a fake peer that never acks: the first tick sends, the next condemns
    let mut l = LivenessState::new(40_000);
    let first = l.on_tick(Some(12));
    assert_eq!(first, HeartbeatTick::Send { seq: Some(12) });
    assert!(l.ack_pending);
    let second = l.on_tick(Some(13));
    assert_eq!(second, HeartbeatTick::Zombie);
}

#[test]
fn acked_heartbeat_keeps_ticking() {
    let mut l = LivenessState::new(40_000);
    assert_eq!(l.on_tick(None), HeartbeatTick::Send { seq: None });
    l.on_ack();
    assert_eq!(l.on_tick(Some(2)), HeartbeatTick::Send { seq: Some(2) });
}

#[test]
fn fresh_connection_sends_identify_never_resume() {
    let state = SessionState::new();
    let f = opening_frame(&state, "token-a", 0);
    match f {
        OutboundFrame::Identify { token, intents } => {
            assert_eq!(token, "token-a");
            assert_eq!(intents, 0);
        }
        other => panic!("expected identify, got {:?}", other),
    }
}

#[test]
fn prior_identity_sends_resume_never_identify() {
    let mut state = SessionState::new();
    // capture the identity and a sequence as a READY dispatch would
    let ready = parse(r#"{"op":0,"s":41,"t":"READY","d":{"session_id":"abc"}}"#);
    process_frame(&mut state, decode_frame(&ready));
    let f = opening_frame(&state, "token-a", 0);
    match f {
        OutboundFrame::Resume { token, session_id, seq } => {
            assert_eq!(token, "token-a");
            assert_eq!(session_id, "abc");
            assert_eq!(seq, 41);
        }
        other => panic!("expected resume, got {:?}", other),
    }
}

#[test]
fn close_4004_is_done() {
    assert_eq!(classify_close(4004), ReconnectDecision::Done);
    assert_eq!(classify_close(4010), ReconnectDecision::Done);
    assert_eq!(classify_close(4011), ReconnectDecision::Done);
    assert_eq!(classify_close(4012), ReconnectDecision::Done);
}

#[test]
fn close_1006_reconnects_resumably() {
    assert_eq!(classify_close(1006), ReconnectDecision::ReconnectResume);
    assert_eq!(classify_close(1000), ReconnectDecision::ReconnectResume);
    assert_eq!(classify_close(0), ReconnectDecision::ReconnectResume);
}

#[test]
fn hello_starts_heartbeat_with_announced_interval() {
    let mut state = SessionState::new();
    let hello = parse(r#"{"op":10,"d":{"heartbeat_interval":40000}}"#);
    let outcome = process_frame(&mut state, decode_frame(&hello));
    match outcome {
        FrameOutcome::StartHeartbeat { interval_ms } => assert_eq!(interval_ms, 40_000),
        other => panic!("expected heartbeat start, got {:?}", other),
    }
    assert_eq!(
        state.liveness,
        Some(LivenessState { interval_ms: 40_000, ack_pending: false })
    );
}

#[test]
fn reconnect_frame_completes_with_resume() {
    let mut state = SessionState::new();
    let frame = parse(r#"{"op":7,"d":null}"#);
    match process_frame(&mut state, decode_frame(&frame)) {
        FrameOutcome::Complete { decision } => {
            assert_eq!(decision, ReconnectDecision::ReconnectResume)
        }
        other => panic!("expected completion, got {:?}", other),
    }
}

#[test]
fn invalid_session_resumable_flag_drives_decision() {
    let mut state = SessionState::new();
    let resumable = parse(r#"{"op":9,"d":true}"#);
    match process_frame(&mut state, decode_frame(&resumable)) {
        FrameOutcome::Complete { decision } => {
            assert_eq!(decision, ReconnectDecision::ReconnectResume)
        }
        other => panic!("expected completion, got {:?}", other),
    }
    let fresh = parse(r#"{"op":9,"d":false}"#);
    match process_frame(&mut state, decode_frame(&fresh)) {
        FrameOutcome::Complete { decision } => {
            assert_eq!(decision, ReconnectDecision::ReconnectFresh)
        }
        other => panic!("expected completion, got {:?}", other),
    }
}

#[test]
fn heartbeat_request_emits_current_sequence() {
    let mut state = SessionState::new();
    let seq_frame = parse(r#"{"op":0,"s":9,"t":"MESSAGE_CREATE","d":{}}"#);
    process_frame(&mut state, decode_frame(&seq_frame));
    let request = parse(r#"{"op":1,"d":null}"#);
    match process_frame(&mut state, decode_frame(&request)) {
        FrameOutcome::Emit { frame } => {
            assert_eq!(frame, OutboundFrame::Heartbeat { seq: Some(9) })
        }
        other => panic!("expected an emitted heartbeat, got {:?}", other),
    }
}

#[test]
fn unknown_op_is_ignored() {
    let mut state = SessionState::new();
    let frame = parse(r#"{"op":42,"d":null}"#);
    assert!(matches!(
        process_frame(&mut state, decode_frame(&frame)),
        FrameOutcome::Continue
    ));
}

#[test]
fn malformed_text_is_a_json_error() {
    match parse_json("{not json") {
        Err(ClientError::Json(_)) => {}
        other => panic!("expected a JSON error, got {:?}", other),
    }
    match fluxer::gateway::decode_text("{not json") {
        Err(ClientError::Json(_)) => {}
        other => panic!("expected a JSON error, got {:?}", other),
    }
}

#[test]
fn decode_text_classifies_whole_frames() {
    let frame = fluxer::gateway::decode_text(r#"{"op":11,"d":null}"#).unwrap();
    assert!(matches!(frame.kind, FrameKind::HeartbeatAck));
    assert_eq!(frame.seq, None);
}

#[test]
fn hello_without_interval_uses_default() {
    let frame = decode_frame(&parse(r#"{"op":10,"d":{}}"#));
    match frame.kind {
        FrameKind::Hello { heartbeat_interval_ms } => assert_eq!(heartbeat_interval_ms, 41_250),
        other => panic!("expected hello, got {:?}", other),
    }
}

#[test]
fn end_to_end_hello_identify_ready_heartbeat_ack() {
    // peer announces a 40s cadence
    let mut state = SessionState::new();
    let hello = parse(r#"{"op":10,"d":{"heartbeat_interval":40000}}"#);
    let outcome = process_frame(&mut state, decode_frame(&hello));
    assert!(matches!(outcome, FrameOutcome::StartHeartbeat { interval_ms: 40000 }));

    // the engine identifies: no prior identity exists
    let open = opening_frame(&state, "tok", 0);
    assert!(matches!(open, OutboundFrame::Identify { .. }));

    // peer dispatches READY with session id "abc" at sequence 1
    let ready = parse(
        r#"{"op":0,"s":1,"t":"READY","d":{"session_id":"abc","resume_gateway_url":"wss://resume.example"}}"#,
    );
    let outcome = process_frame(&mut state, decode_frame(&ready));
    assert!(matches!(outcome, FrameOutcome::DispatchEvent { .. }));
    assert_eq!(state.session_id.as_deref(), Some("abc"));
    assert_eq!(
        state.resume_url.as_deref(),
        Some("wss://resume.example/?v=1&encoding=json")
    );
    assert_eq!(state.cursor.last_seq, Some(1));

    // the monitor's first tick sends a heartbeat carrying the sequence
    let jitter = heartbeat_jitter_ms(40_000);
    assert!(1 <= jitter && jitter <= 40_000);
    let mut liveness = state.liveness.clone().unwrap();
    let tick = liveness.on_tick(state.cursor.last_seq);
    assert_eq!(tick, HeartbeatTick::Send { seq: Some(1) });
    assert!(liveness.ack_pending);
    state.liveness = Some(liveness);

    // peer acks; the pending flag clears
    let ack = parse(r#"{"op":11,"d":null}"#);
    process_frame(&mut state, decode_frame(&ack));
    assert!(!state.liveness.as_ref().unwrap().ack_pending);
}

#[test]
fn no_session_continues_after_done() {
    assert!(!fluxer::gateway::session_continues(&ReconnectDecision::Done));
    assert!(fluxer::gateway::session_continues(&ReconnectDecision::ReconnectResume));
    assert!(fluxer::gateway::session_continues(&ReconnectDecision::ReconnectFresh));
}

#[test]
fn backoff_doubles_and_caps() {
    assert_eq!(next_backoff_ms(1000), 2000);
    assert_eq!(next_backoff_ms(16_000), 32_000);
    assert_eq!(next_backoff_ms(40_000), 60_000);
    assert_eq!(next_backoff_ms(60_000), 60_000);
}

#[test]
fn fresh_delay_is_jittered_between_one_and_five_seconds() {
    for _ in 0..32 {
        let d = fresh_reconnect_delay_ms();
        assert!((1000..5000).contains(&d));
    }
}

#[test]
fn connect_url_prefers_resume_endpoint() {
    let mut state = SessionState::new();
    let ready = parse(
        r#"{"op":0,"s":1,"t":"READY","d":{"session_id":"abc","resume_gateway_url":"wss://r.example/"}}"#,
    );
    process_frame(&mut state, decode_frame(&ready));
    assert_eq!(
        connect_url(&state, Some("wss://fetched.example")),
        "wss://r.example/?v=1&encoding=json"
    );
}

#[test]
fn connect_url_fresh_uses_fetched_or_default() {
    let state = SessionState::new();
    assert_eq!(
        connect_url(&state, Some("wss://fetched.example//")),
        "wss://fetched.example/?v=1&encoding=json"
    );
    assert_eq!(connect_url(&state, None), DEFAULT_GATEWAY_URL);
}

#[test]
fn apply_decision_clears_only_on_fresh() {
    let mut state = SessionState::new();
    let ready = parse(r#"{"op":0,"s":5,"t":"READY","d":{"session_id":"abc"}}"#);
    process_frame(&mut state, decode_frame(&ready));

    let mut resumed = state.clone();
    fluxer::gateway::apply_decision(&mut resumed, &ReconnectDecision::ReconnectResume);
    assert_eq!(resumed.session_id.as_deref(), Some("abc"));
    assert_eq!(resumed.cursor.last_seq, Some(5));
    assert!(resumed.liveness.is_none());

    fluxer::gateway::apply_decision(&mut state, &ReconnectDecision::ReconnectFresh);
    assert_eq!(state.session_id, None);
    assert_eq!(state.resume_url, None);
    assert_eq!(state.cursor.last_seq, None);
}

#[test]
fn sequence_updates_before_op_routing() {
    let mut state = SessionState::new();
    let frame = ParsedFrame {
        seq: Some(3),
        kind: FrameKind::HeartbeatRequest,
    };
    match process_frame(&mut state, frame) {
        FrameOutcome::Emit { frame } => assert_eq!(frame, OutboundFrame::Heartbeat { seq: Some(3) }),
        other => panic!("expected an emitted heartbeat, got {:?}", other),
    }
}
