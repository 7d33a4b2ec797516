use std::str::FromStr;

use rucord::gateway::GatewayDispatchEvents;
use rucord::payload::{DispatchPayload, GatewayReceivePayload};

#[test]
fn test_gateway_event_parser() {
    assert_eq!(
        GatewayDispatchEvents::from_str("READY"),
        Ok(GatewayDispatchEvents::Ready)
    )
}

#[test]
fn hello_frame_unpacks() {
    let r = GatewayReceivePayload::unpack("{\"op\":10,\"d\":{\"heartbeat_interval\":45000}}");
    assert!(matches!(r, Some(GatewayReceivePayload::Hello(45000))));
}

#[test]
fn heartbeat_request_frame_unpacks() {
    let r = GatewayReceivePayload::unpack("{\"op\":1,\"d\":null}");
    assert!(matches!(r, Some(GatewayReceivePayload::HeartbeatRequest)));
}

#[test]
fn heartbeat_ack_frame_unpacks() {
    let r = GatewayReceivePayload::unpack("{\"op\":11,\"d\":null}");
    assert!(matches!(r, Some(GatewayReceivePayload::HeartbeatAck)));
}

#[test]
fn invalid_session_frames_unpack() {
    let r = GatewayReceivePayload::unpack("{\"op\":9,\"d\":true}");
    assert!(matches!(r, Some(GatewayReceivePayload::InvalidSession(true))));
    let r = GatewayReceivePayload::unpack("{\"op\":9,\"d\":false}");
    assert!(matches!(r, Some(GatewayReceivePayload::InvalidSession(false))));
}

#[test]
fn reconnect_frame_unpacks() {
    let r = GatewayReceivePayload::unpack("{\"op\":7,\"d\":null}");
    assert!(matches!(r, Some(GatewayReceivePayload::Reconnect)));
}

#[test]
fn ready_dispatch_unpacks_with_fields() {
    let text = "{\"op\":0,\"s\":1,\"t\":\"READY\",\"d\":{\"v\":10,\"user\":{},\
                \"session_id\":\"S\",\"resume_gateway_url\":\"wss://resume.example\",\
                \"guilds\":[],\"application\":{},\"shard\":[0,2]}}";
    let r = GatewayReceivePayload::unpack(text).unwrap();
    match r {
        GatewayReceivePayload::Dispatch(s, DispatchPayload::Ready(data)) => {
            assert_eq!(s, 1);
            assert_eq!(data.v, 10);
            assert_eq!(data.session_id, "S");
            assert_eq!(data.resume_gateway_url, "wss://resume.example");
            assert_eq!(data.shard, Some((0, 2)));
        }
        other => panic!("expected a READY dispatch, got {:?}", other),
    }
}

#[test]
fn resumed_dispatch_unpacks() {
    let r = GatewayReceivePayload::unpack("{\"op\":0,\"s\":2,\"t\":\"RESUMED\",\"d\":null}");
    assert!(matches!(
        r,
        Some(GatewayReceivePayload::Dispatch(2, DispatchPayload::Resume))
    ));
}

#[test]
fn known_event_dispatch_carries_its_data() {
    let r = GatewayReceivePayload::unpack(
        "{\"op\":0,\"s\":4,\"t\":\"MESSAGE_CREATE\",\"d\":{\"id\":\"1\"}}",
    )
    .unwrap();
    match r {
        GatewayReceivePayload::Dispatch(4, DispatchPayload::Other(ev, Some(d))) => {
            assert_eq!(ev, GatewayDispatchEvents::MessageCreate);
            assert_eq!(d.get("id"), Some(&serde_json::Value::from("1")));
        }
        other => panic!("expected a MESSAGE_CREATE dispatch, got {:?}", other),
    }
}

#[test]
fn unknown_event_name_is_carried_through() {
    let r = GatewayReceivePayload::unpack(
        "{\"op\":0,\"s\":3,\"t\":\"SOMETHING_NEW\",\"d\":{\"k\":1}}",
    )
    .unwrap();
    match r {
        GatewayReceivePayload::Dispatch(3, DispatchPayload::Unknown(t, rest)) => {
            assert_eq!(t, "SOMETHING_NEW");
            assert!(rest.contains_key("d"));
        }
        other => panic!("expected an unknown dispatch, got {:?}", other),
    }
}

#[test]
fn unknown_opcode_is_carried_through() {
    let r = GatewayReceivePayload::unpack("{\"op\":42,\"d\":{\"k\":1}}").unwrap();
    match r {
        GatewayReceivePayload::UnknownOp(42, rest) => {
            assert!(rest.contains_key("d"));
        }
        other => panic!("expected an unknown opcode, got {:?}", other),
    }
}

#[test]
fn send_only_opcode_is_unknown_for_receiving() {
    let r = GatewayReceivePayload::unpack("{\"op\":2,\"d\":{}}").unwrap();
    assert!(matches!(r, GatewayReceivePayload::UnknownOp(2, _)));
}

#[test]
fn malformed_frames_are_rejected() {
    assert!(GatewayReceivePayload::unpack("not json").is_none());
    assert!(GatewayReceivePayload::unpack("[1,2]").is_none());
    assert!(GatewayReceivePayload::unpack("{\"d\":{}}").is_none());
    assert!(GatewayReceivePayload::unpack("{\"op\":\"x\"}").is_none());
    assert!(GatewayReceivePayload::unpack("{\"op\":10,\"d\":{}}").is_none());
    assert!(GatewayReceivePayload::unpack("{\"op\":9,\"d\":3}").is_none());
    assert!(GatewayReceivePayload::unpack("{\"op\":0,\"t\":\"READY\",\"d\":{}}").is_none());
}

#[test]
fn own_frames_parse_back_through_unpack() {
    // A heartbeat the client writes is read back by the same frame
    // parser the client runs on inbound text; opcode 1 inbound means a
    // heartbeat request.
    let text = rucord::payload::GatewaySendPayload::Heartbeat(Some(5)).serialize();
    let r = GatewayReceivePayload::unpack(&text);
    assert!(matches!(r, Some(GatewayReceivePayload::HeartbeatRequest)));
}
