//! Handshake flows driven from raw frame text, the way the socket loop
//! drives them: each server line goes through the frame decoder and the
//! decoded event through the shard state machine.

use rucord::payload::{GatewayReceivePayload, GatewaySendPayload, IdentifyConnectionProperties};
use rucord::shard::{ShardAction, WebSocketShard, WebSocketShardStatus, WebSocketWorkerOptions};

fn shard() -> WebSocketShard {
    WebSocketShard::new(
        0,
        WebSocketWorkerOptions {
            token: "tok".to_string(),
            intents: 512,
            identify_properties: IdentifyConnectionProperties::default(),
            gateway_url: "wss://gw.example".to_string(),
            shard_count: 1,
        },
        0,
    )
}

fn feed(shard: &mut WebSocketShard, text: &str, now: u64) -> Vec<ShardAction> {
    let event = GatewayReceivePayload::unpack(text).expect("frame should decode");
    shard.resolve_event(event, now)
}

#[test]
fn identify_handshake_from_wire_text() {
    let mut s = shard();
    s.connect(0).unwrap();
    s.on_connection_opened();

    let acts = feed(&mut s, "{\"op\":10,\"d\":{\"heartbeat_interval\":45000}}", 5);
    assert_eq!(s.heartbeat_interval, 45_000);
    assert_eq!(acts.len(), 1);
    match &acts[0] {
        ShardAction::SendAfterIdentifySlot(p) => {
            // The identify the client would put on the wire.
            let v: serde_json::Value = serde_json::from_str(&p.serialize()).unwrap();
            assert_eq!(v["op"], serde_json::Value::from(2u64));
            assert_eq!(v["d"]["token"], serde_json::Value::from("tok"));
            assert_eq!(v["d"]["intents"], serde_json::Value::from(512u64));
            assert_eq!(v["d"]["shard"][0], serde_json::Value::from(0u64));
            assert_eq!(v["d"]["shard"][1], serde_json::Value::from(1u64));
        }
        other => panic!("expected a gated identify, got {:?}", other),
    }

    let ready = "{\"op\":0,\"s\":1,\"t\":\"READY\",\"d\":{\"v\":10,\"user\":{},\
                 \"session_id\":\"S\",\"resume_gateway_url\":\"wss://resume.example\",\
                 \"guilds\":[],\"application\":{}}}";
    feed(&mut s, ready, 10);
    assert_eq!(s.status(), WebSocketShardStatus::Ready);
    assert_eq!(s.session.as_ref().unwrap().id, "S");
    assert_eq!(s.session.as_ref().unwrap().sequence, 1);
}

#[test]
fn resume_handshake_from_wire_text() {
    let mut s = shard();
    s.connect(0).unwrap();
    s.on_connection_opened();
    feed(&mut s, "{\"op\":10,\"d\":{\"heartbeat_interval\":45000}}", 5);
    let ready = "{\"op\":0,\"s\":1,\"t\":\"READY\",\"d\":{\"v\":10,\"user\":{},\
                 \"session_id\":\"S\",\"resume_gateway_url\":\"wss://resume.example\",\
                 \"guilds\":[],\"application\":{}}}";
    feed(&mut s, ready, 10);

    // The server invalidates the session but allows a resume.
    let acts = feed(&mut s, "{\"op\":9,\"d\":true}", 20);
    assert_eq!(s.status(), WebSocketShardStatus::Resuming);
    match &acts[0] {
        ShardAction::Send(p @ GatewaySendPayload::Resume(_)) => {
            assert_eq!(
                p.serialize(),
                "{\"op\":6,\"d\":{\"token\":\"tok\",\"session_id\":\"S\",\"seq\":1}}"
            );
        }
        other => panic!("expected a resume command, got {:?}", other),
    }

    // The server confirms the resume.
    let acts = feed(&mut s, "{\"op\":0,\"s\":2,\"t\":\"RESUMED\",\"d\":null}", 30);
    assert_eq!(s.status(), WebSocketShardStatus::Ready);
    assert!(matches!(&acts[0], ShardAction::NotifyResumed));
}
