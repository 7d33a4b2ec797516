use rucord::payload::{
    DispatchPayload, GatewayReceivePayload, GatewaySendPayload, IdentifyConnectionProperties,
    ReadyData,
};
use rucord::shard::{
    DebugMessage, ShardAction, WebSocketShard, WebSocketShardStatus, WebSocketWorkerOptions,
};

fn options() -> WebSocketWorkerOptions {
    WebSocketWorkerOptions {
        token: "tok".to_string(),
        intents: 512,
        identify_properties: IdentifyConnectionProperties::default(),
        gateway_url: "wss://gw.example".to_string(),
        shard_count: 1,
    }
}

fn ready_data() -> ReadyData {
    ReadyData {
        v: 10,
        user: serde_json::Value::Null,
        guilds: serde_json::Value::Null,
        session_id: "S".to_string(),
        resume_gateway_url: "wss://resume.example".to_string(),
        shard: None,
        application: serde_json::Value::Null,
    }
}

/// Runs the clean-identify handshake up to READY and returns the shard
/// and the clock.
fn ready_shard() -> (WebSocketShard, u64) {
    let mut shard = WebSocketShard::new(0, options(), 0);
    assert_eq!(shard.status(), WebSocketShardStatus::Idle);
    let acts = shard.connect(0).unwrap();
    assert_eq!(shard.status(), WebSocketShardStatus::Connecting);
    assert_eq!(acts.len(), 1);
    match &acts[0] {
        ShardAction::Open(url) => assert_eq!(url, "wss://gw.example"),
        other => panic!("expected an open action, got {:?}", other),
    }
    shard.on_connection_opened();
    let acts = shard.resolve_event(GatewayReceivePayload::Hello(45_000), 10);
    assert_eq!(shard.heartbeat_interval, 45_000);
    assert!(shard.next_heartbeat_ms < 45_000);
    assert_eq!(acts.len(), 1);
    match &acts[0] {
        ShardAction::SendAfterIdentifySlot(GatewaySendPayload::Identify(d)) => {
            assert_eq!(d.token, "tok");
            assert_eq!(d.intents, 512);
            assert_eq!(d.shard, Some((0, 1)));
        }
        other => panic!("expected a gated identify, got {:?}", other),
    }
    let acts = shard.resolve_event(
        GatewayReceivePayload::Dispatch(1, DispatchPayload::Ready(ready_data())),
        20,
    );
    assert_eq!(shard.status(), WebSocketShardStatus::Ready);
    assert_eq!(acts.len(), 1);
    assert!(matches!(&acts[0], ShardAction::NotifyReady(d) if d.session_id == "S"));
    let sess = shard.session.as_ref().unwrap();
    assert_eq!(sess.id, "S");
    assert_eq!(sess.resume_url, "wss://resume.example");
    assert_eq!(sess.sequence, 1);
    assert_eq!(sess.shard_id, 0);
    assert_eq!(sess.shard_count, 1);
    (shard, 20)
}

#[test]
fn scenario_clean_identify() {
    let (shard, _) = ready_shard();
    // The state invariant at Ready: a connection, a session, a timer.
    assert!(shard.connected);
    assert!(shard.session.is_some());
    assert!(shard.heartbeat_interval > 0);
}

#[test]
fn scenario_heartbeat_ack_latency() {
    let (mut shard, _) = ready_shard();
    // Advance the clock past the interval: the scheduled beat fires.
    let t = 10 + 45_001;
    let acts = shard.heartbeat(t, false);
    assert_eq!(acts.len(), 1);
    assert!(matches!(
        &acts[0],
        ShardAction::Send(GatewaySendPayload::Heartbeat(Some(1)))
    ));
    assert!(!shard.is_ack);
    // The server acknowledges 89 ms later; latency is reported.
    let acts = shard.resolve_event(GatewayReceivePayload::HeartbeatAck, t + 89);
    assert!(shard.is_ack);
    assert_eq!(acts.len(), 1);
    assert!(matches!(
        &acts[0],
        ShardAction::Debug(DebugMessage::HeartbeatLatency(89))
    ));
}

#[test]
fn scenario_zombied_connection() {
    let (mut shard, _) = ready_shard();
    let t1 = 10 + 45_001;
    let acts = shard.heartbeat(t1, false);
    assert_eq!(acts.len(), 1);
    // No acknowledgement arrives; when the next beat falls due the
    // shard tears down and reopens against the resume URL.
    let t2 = t1 + 45_000;
    let acts = shard.heartbeat(t2, false);
    assert_eq!(acts.len(), 2);
    assert!(matches!(&acts[0], ShardAction::Close(None)));
    match &acts[1] {
        ShardAction::Open(url) => assert_eq!(url, "wss://resume.example"),
        other => panic!("expected a reopen, got {:?}", other),
    }
    assert_eq!(shard.status(), WebSocketShardStatus::Connecting);
    assert!(shard.session.is_some());
    assert!(!shard.connected);
    assert_eq!(shard.heartbeat_interval, -1);
}

#[test]
fn scenario_invalid_session_resumable() {
    let (mut shard, t) = ready_shard();
    let acts = shard.resolve_event(GatewayReceivePayload::InvalidSession(true), t + 1);
    assert_eq!(shard.status(), WebSocketShardStatus::Resuming);
    assert_eq!(acts.len(), 1);
    match &acts[0] {
        ShardAction::Send(GatewaySendPayload::Resume(d)) => {
            assert_eq!(d.token, "tok");
            assert_eq!(d.session_id, "S");
            assert_eq!(d.seq, 1);
        }
        other => panic!("expected a resume command, got {:?}", other),
    }
    let acts = shard.resolve_event(
        GatewayReceivePayload::Dispatch(2, DispatchPayload::Resume),
        t + 2,
    );
    assert_eq!(shard.status(), WebSocketShardStatus::Ready);
    assert_eq!(acts.len(), 1);
    assert!(matches!(&acts[0], ShardAction::NotifyResumed));
}

#[test]
fn scenario_invalid_session_not_resumable() {
    let (mut shard, t) = ready_shard();
    let acts = shard.resolve_event(GatewayReceivePayload::InvalidSession(false), t + 1);
    // The session is discarded and the shard reopens against the
    // gateway URL to identify afresh.
    assert!(shard.session.is_none());
    assert_eq!(shard.status(), WebSocketShardStatus::Connecting);
    assert_eq!(acts.len(), 2);
    assert!(matches!(&acts[0], ShardAction::Close(None)));
    match &acts[1] {
        ShardAction::Open(url) => assert_eq!(url, "wss://gw.example"),
        other => panic!("expected a reopen, got {:?}", other),
    }
    shard.on_connection_opened();
    let acts = shard.resolve_event(GatewayReceivePayload::Hello(45_000), t + 10);
    assert_eq!(acts.len(), 1);
    assert!(matches!(
        &acts[0],
        ShardAction::SendAfterIdentifySlot(GatewaySendPayload::Identify(_))
    ));
}

#[test]
fn reconnect_keeps_session_and_reopens() {
    let (mut shard, t) = ready_shard();
    let acts = shard.resolve_event(GatewayReceivePayload::Reconnect, t + 1);
    assert!(shard.session.is_some());
    assert_eq!(shard.status(), WebSocketShardStatus::Connecting);
    assert_eq!(acts.len(), 2);
    match &acts[1] {
        ShardAction::Open(url) => assert_eq!(url, "wss://resume.example"),
        other => panic!("expected a reopen, got {:?}", other),
    }
}

#[test]
fn hello_during_handshake_with_session_resumes() {
    let (mut shard, t) = ready_shard();
    // Drop to a reconnect, reopen, and receive HELLO again: with a live
    // session the shard resumes instead of identifying.
    shard.resolve_event(GatewayReceivePayload::Reconnect, t + 1);
    shard.on_connection_opened();
    let acts = shard.resolve_event(GatewayReceivePayload::Hello(45_000), t + 5);
    assert_eq!(shard.status(), WebSocketShardStatus::Resuming);
    assert_eq!(acts.len(), 1);
    assert!(matches!(
        &acts[0],
        ShardAction::Send(GatewaySendPayload::Resume(_))
    ));
}

#[test]
fn heartbeat_within_interval_sends_nothing() {
    let (mut shard, _) = ready_shard();
    let t = 10 + 45_001;
    let acts = shard.heartbeat(t, false);
    assert_eq!(acts.len(), 1);
    // A second unrequested call within the interval is a no-op.
    let acts = shard.heartbeat(t + 1, false);
    assert_eq!(acts.len(), 0);
    let acts = shard.heartbeat(t + 44_999, false);
    assert_eq!(acts.len(), 0);
}

#[test]
fn requested_heartbeat_is_sent_at_once() {
    let (mut shard, t) = ready_shard();
    let acts = shard.resolve_event(GatewayReceivePayload::HeartbeatRequest, t + 1);
    assert_eq!(acts.len(), 1);
    assert!(matches!(
        &acts[0],
        ShardAction::Send(GatewaySendPayload::Heartbeat(Some(1)))
    ));
}

#[test]
fn requested_heartbeat_before_hello_is_still_sent() {
    let mut shard = WebSocketShard::new(0, options(), 0);
    shard.connect(0).unwrap();
    shard.on_connection_opened();
    // The server asks for a beat before it has sent HELLO: the beat
    // goes out (with no sequence yet) and the timer stays unset.
    let acts = shard.resolve_event(GatewayReceivePayload::HeartbeatRequest, 5);
    assert_eq!(acts.len(), 1);
    assert!(matches!(
        &acts[0],
        ShardAction::Send(GatewaySendPayload::Heartbeat(None))
    ));
    assert_eq!(shard.heartbeat_interval, -1);
    assert!(shard.is_ack);
}

#[test]
fn destroy_on_idle_shard_is_a_no_op() {
    let mut shard = WebSocketShard::new(0, options(), 0);
    let acts = shard.destroy(None, Some(true), 5);
    assert_eq!(acts.len(), 0);
    assert_eq!(shard.status(), WebSocketShardStatus::Idle);
    assert!(!shard.connected);
    assert_eq!(shard.heartbeat_interval, -1);
    let acts = shard.destroy(None, None, 6);
    assert_eq!(acts.len(), 0);
    assert_eq!(shard.status(), WebSocketShardStatus::Idle);
}

#[test]
fn destroy_without_recovery_goes_idle() {
    let (mut shard, t) = ready_shard();
    let acts = shard.destroy(
        Some(rucord::error::CloseFrame {
            code: 1000,
            reason: "bye".to_string(),
        }),
        None,
        t + 1,
    );
    assert_eq!(acts.len(), 1);
    match &acts[0] {
        ShardAction::Close(Some(f)) => {
            assert_eq!(f.code, 1000);
            assert_eq!(f.reason, "bye");
        }
        other => panic!("expected a close action, got {:?}", other),
    }
    assert_eq!(shard.status(), WebSocketShardStatus::Idle);
    assert!(!shard.connected);
    assert_eq!(shard.heartbeat_interval, -1);
    // The session survives a plain destroy for a later resume.
    assert!(shard.session.is_some());
}

#[test]
fn connect_on_non_idle_shard_fails() {
    let (mut shard, t) = ready_shard();
    let r = shard.connect(t + 1);
    assert_eq!(r.unwrap_err(), rucord::error::ShardError::NotIdle);
    assert_eq!(shard.status(), WebSocketShardStatus::Ready);
}

#[test]
fn dispatch_sequence_tracks_the_maximum() {
    let (mut shard, t) = ready_shard();
    for (i, s) in [5i64, 3, 9, 2].into_iter().enumerate() {
        shard.resolve_event(
            GatewayReceivePayload::Dispatch(
                s,
                DispatchPayload::Other(rucord::gateway::GatewayDispatchEvents::MessageCreate, None),
            ),
            t + 1 + i as u64,
        );
    }
    assert_eq!(shard.session.as_ref().unwrap().sequence, 9);
}

#[test]
fn decode_failures_are_fatal_only_mid_handshake() {
    let mut shard = WebSocketShard::new(0, options(), 0);
    assert!(!shard.decode_failure_is_fatal());
    shard.connect(0).unwrap();
    assert!(shard.decode_failure_is_fatal());
    let (ready, _) = ready_shard();
    assert!(!ready.decode_failure_is_fatal());
    let (mut resuming, t) = ready_shard();
    resuming.resolve_event(GatewayReceivePayload::InvalidSession(true), t + 1);
    assert!(resuming.decode_failure_is_fatal());
}

#[test]
fn unknown_opcode_is_only_reported() {
    let (mut shard, t) = ready_shard();
    let acts = shard.resolve_event(
        GatewayReceivePayload::UnknownOp(42, serde_json::Map::new()),
        t + 1,
    );
    assert_eq!(acts.len(), 1);
    assert!(matches!(
        &acts[0],
        ShardAction::Debug(DebugMessage::UnknownOpcode(42))
    ));
    assert_eq!(shard.status(), WebSocketShardStatus::Ready);
}
