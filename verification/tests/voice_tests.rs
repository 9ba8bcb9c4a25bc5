use fluxer::dispatch::{
    apply_server_payload, apply_state_payload, extract_server_fragment, extract_state_fragment,
};
use fluxer::json::parse_json;
use fluxer::registry::HandleMap;
use fluxer::voice::{
    begin_join, finish_join, leave_voice_full, leave_voice_step, normalize_endpoint,
    pcm_bytes_to_samples, start_playback, VoiceStateMap,
};
use fluxer::gateway::OutboundFrame;

fn parse(s: &str) -> serde_json::Value {
    parse_json(s).unwrap()
}

#[test]
fn state_fragment_alone_is_not_ready() {
    let mut agg = VoiceStateMap::new();
    agg.record_state_fragment("g1", "sess-1".to_string());
    assert!(agg.ready_state("g1").is_none());
}

#[test]
fn server_fragment_alone_is_ready_once_both_fields_arrive() {
    let mut agg = VoiceStateMap::new();
    agg.record_server_fragment("g1", "tok-1".to_string(), "voice.example".to_string());
    // both token and endpoint are populated by the server fragment
    let vs = agg.ready_state("g1").expect("token and endpoint present");
    assert_eq!(vs.token, "tok-1");
    assert_eq!(vs.endpoint, "wss://voice.example");
    assert_eq!(vs.session_id, None);
}

#[test]
fn both_fragments_complete_the_state() {
    let mut agg = VoiceStateMap::new();
    agg.record_state_fragment("g1", "sess-1".to_string());
    agg.record_server_fragment("g1", "tok-1".to_string(), "wss://voice.example".to_string());
    let vs = agg.ready_state("g1").expect("complete after both fragments");
    assert_eq!(vs.token, "tok-1");
    assert_eq!(vs.endpoint, "wss://voice.example");
    assert_eq!(vs.session_id.as_deref(), Some("sess-1"));
}

#[test]
fn ready_is_per_guild() {
    let mut agg = VoiceStateMap::new();
    agg.record_server_fragment("g1", "tok-1".to_string(), "e1.example".to_string());
    assert!(agg.ready_state("g2").is_none());
    assert!(agg.ready_state("g1").is_some());
}

#[test]
fn clear_forgets_partial_state() {
    let mut agg = VoiceStateMap::new();
    agg.record_state_fragment("g1", "sess-1".to_string());
    agg.clear("g1");
    agg.record_server_fragment("g1", "tok-2".to_string(), "e2.example".to_string());
    let vs = agg.ready_state("g1").unwrap();
    // the old session fragment did not leak into the new handshake
    assert_eq!(vs.session_id, None);
}

#[test]
fn second_join_does_not_inherit_first_attempts_fragments() {
    let mut agg = VoiceStateMap::new();
    // first attempt leaves a dangling state fragment behind
    agg.record_state_fragment("g1", "stale-sess".to_string());
    let frame = begin_join(&mut agg, "g1", "chan-9");
    match frame {
        OutboundFrame::VoiceStateUpdate { guild_id, channel_id, self_mute, self_deaf } => {
            assert_eq!(guild_id, "g1");
            assert_eq!(channel_id.as_deref(), Some("chan-9"));
            assert!(!self_mute);
            assert!(!self_deaf);
        }
        other => panic!("expected a voice-state update, got {:?}", other),
    }
    assert!(agg.ready_state("g1").is_none());
    assert!(agg.get("g1").is_none());
}

#[test]
fn leave_twice_is_a_noop_the_second_time() {
    let mut rooms = HandleMap::new();
    let mut agg = VoiceStateMap::new();
    agg.record_server_fragment("g1", "tok".to_string(), "e.example".to_string());
    finish_join(&mut rooms, "g1", 71);

    let (closed, frame) = leave_voice_step(&mut rooms, &mut agg, "g1");
    assert_eq!(closed, Some(71));
    match frame {
        OutboundFrame::VoiceStateUpdate { guild_id, channel_id, .. } => {
            assert_eq!(guild_id, "g1");
            assert_eq!(channel_id, None);
        }
        other => panic!("expected a voice-state update, got {:?}", other),
    }

    let (closed_again, _) = leave_voice_step(&mut rooms, &mut agg, "g1");
    assert_eq!(closed_again, None);
    assert!(agg.get("g1").is_none());
    assert!(rooms.get("g1").is_none());
}

#[test]
fn leaving_surfaces_playback_before_the_room() {
    let mut playback = HandleMap::new();
    let mut rooms = HandleMap::new();
    let mut agg = VoiceStateMap::new();
    start_playback(&mut playback, "g1", 41);
    finish_join(&mut rooms, "g1", 7);
    agg.record_server_fragment("g1", "t".to_string(), "e.example".to_string());

    let (playing, closed, frame) = leave_voice_full(&mut playback, &mut rooms, &mut agg, "g1");
    assert_eq!(playing, Some(41));
    assert_eq!(closed, Some(7));
    assert!(matches!(
        frame,
        OutboundFrame::VoiceStateUpdate { channel_id: None, .. }
    ));
    assert!(agg.get("g1").is_none());

    // nothing is active any more: the second leave finds nothing
    let (playing2, closed2, _) = leave_voice_full(&mut playback, &mut rooms, &mut agg, "g1");
    assert_eq!(playing2, None);
    assert_eq!(closed2, None);
}

#[test]
fn new_playback_surfaces_prior_for_cancellation() {
    let mut playback = HandleMap::new();
    assert_eq!(start_playback(&mut playback, "g1", 10), None);
    // the prior stream must be handed back so it is stopped first
    assert_eq!(start_playback(&mut playback, "g1", 11), Some(10));
    assert_eq!(playback.get("g1"), Some(11));
    // another guild's playback is untouched
    assert_eq!(start_playback(&mut playback, "g2", 20), None);
    assert_eq!(playback.get("g1"), Some(11));
}

#[test]
fn media_session_registry_replaces_and_removes() {
    let mut rooms = HandleMap::new();
    assert_eq!(finish_join(&mut rooms, "g1", 5), None);
    assert_eq!(finish_join(&mut rooms, "g1", 6), Some(5));
    assert_eq!(rooms.remove("g1"), Some(6));
    assert_eq!(rooms.remove("g1"), None);
}

#[test]
fn endpoint_normalization_prepends_secure_scheme() {
    assert_eq!(normalize_endpoint("voice.example"), "wss://voice.example");
    assert_eq!(normalize_endpoint("wss://voice.example"), "wss://voice.example");
    assert_eq!(normalize_endpoint("https://voice.example"), "https://voice.example");
    assert_eq!(normalize_endpoint("ws://voice.example"), "wss://ws://voice.example");
}

#[test]
fn state_fragment_extraction_requires_both_fields() {
    let full = parse(r#"{"guild_id":"g1","session_id":"s1"}"#);
    let f = extract_state_fragment(&full).unwrap();
    assert_eq!(f.guild_id, "g1");
    assert_eq!(f.session_id, "s1");

    let missing = parse(r#"{"guild_id":"g1"}"#);
    assert!(extract_state_fragment(&missing).is_none());
    let empty = parse(r#"{"guild_id":"","session_id":"s1"}"#);
    assert!(extract_state_fragment(&empty).is_none());
}

#[test]
fn server_fragment_extraction_requires_all_fields() {
    let full = parse(r#"{"guild_id":"g1","token":"t1","endpoint":"e1"}"#);
    let f = extract_server_fragment(&full).unwrap();
    assert_eq!(f.guild_id, "g1");
    assert_eq!(f.token, "t1");
    assert_eq!(f.endpoint, "e1");

    let missing = parse(r#"{"guild_id":"g1","token":"t1"}"#);
    assert!(extract_server_fragment(&missing).is_none());
}

#[test]
fn signaling_payloads_reach_the_aggregator() {
    let mut agg = VoiceStateMap::new();
    let state = parse(r#"{"guild_id":"g1","session_id":"s1"}"#);
    assert!(apply_state_payload(&mut agg, &state));
    let server = parse(r#"{"guild_id":"g1","token":"t1","endpoint":"e1.example"}"#);
    assert!(apply_server_payload(&mut agg, &server));
    let vs = agg.ready_state("g1").unwrap();
    assert_eq!(vs.session_id.as_deref(), Some("s1"));
    assert_eq!(vs.token, "t1");
    assert_eq!(vs.endpoint, "wss://e1.example");

    let incomplete = parse(r#"{"guild_id":"g2"}"#);
    assert!(!apply_state_payload(&mut agg, &incomplete));
    assert!(agg.get("g2").is_none());
}

#[test]
fn pcm_bytes_decode_little_endian_signed() {
    let bytes = vec![0x01, 0x00, 0xFF, 0xFF, 0x00, 0x80, 0xFF, 0x7F];
    let samples = pcm_bytes_to_samples(&bytes);
    assert_eq!(samples, vec![1, -1, -32768, 32767]);
}

#[test]
fn pcm_conversion_drops_a_trailing_odd_byte() {
    let bytes = vec![0x02, 0x00, 0x7F];
    assert_eq!(pcm_bytes_to_samples(&bytes), vec![2]);
    assert!(pcm_bytes_to_samples(&Vec::new()).is_empty());
}
