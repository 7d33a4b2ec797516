use std::str::FromStr;

use rucord::gateway::{GatewayCloseCode, GatewayDispatchEvents, GatewayOpcode};

#[test]
fn test_gateway_event() {
    assert_eq!(
        GatewayDispatchEvents::from_str("READY"),
        Ok(GatewayDispatchEvents::Ready)
    )
}

#[test]
fn event_names_map_to_events() {
    assert_eq!(
        GatewayDispatchEvents::from_event_name("GUILD_CREATE"),
        Some(GatewayDispatchEvents::GuildCreate)
    );
    assert_eq!(
        GatewayDispatchEvents::from_event_name("MESSAGE_REACTION_REMOVE_EMOJI"),
        Some(GatewayDispatchEvents::MessageReactionRemoveEmoji)
    );
    assert_eq!(
        GatewayDispatchEvents::from_event_name("RESUMED"),
        Some(GatewayDispatchEvents::Resumed)
    );
    assert_eq!(GatewayDispatchEvents::from_event_name("ready"), None);
    assert_eq!(GatewayDispatchEvents::from_event_name(""), None);
}

#[test]
fn unknown_event_name_is_error() {
    assert!(GatewayDispatchEvents::from_str("NOT_AN_EVENT").is_err());
}

#[test]
fn opcodes_round_trip() {
    let all = [
        (GatewayOpcode::Dispatch, 0),
        (GatewayOpcode::Heartbeat, 1),
        (GatewayOpcode::Identify, 2),
        (GatewayOpcode::PresenceUpdate, 3),
        (GatewayOpcode::VoiceStateUpdate, 4),
        (GatewayOpcode::Resume, 6),
        (GatewayOpcode::Reconnect, 7),
        (GatewayOpcode::RequestGuildMembers, 8),
        (GatewayOpcode::InvalidSession, 9),
        (GatewayOpcode::Hello, 10),
        (GatewayOpcode::HeartbeatAck, 11),
    ];
    for (op, code) in all {
        assert_eq!(op.code(), code);
        assert_eq!(GatewayOpcode::from_code(code), Some(op));
    }
    assert_eq!(GatewayOpcode::from_code(5), None);
    assert_eq!(GatewayOpcode::from_code(12), None);
}

#[test]
fn close_codes_round_trip_and_fatality() {
    assert_eq!(
        GatewayCloseCode::from_code(4004),
        Some(GatewayCloseCode::AuthenticationFailed)
    );
    assert_eq!(GatewayCloseCode::from_code(4006), None);
    assert_eq!(GatewayCloseCode::from_code(4015), None);
    assert!(GatewayCloseCode::AuthenticationFailed.is_fatal());
    assert!(GatewayCloseCode::InvalidShard.is_fatal());
    assert!(GatewayCloseCode::ShardingRequired.is_fatal());
    assert!(GatewayCloseCode::InvalidApiVersion.is_fatal());
    assert!(GatewayCloseCode::InvalidIntents.is_fatal());
    assert!(GatewayCloseCode::DisallowedIntents.is_fatal());
    assert!(!GatewayCloseCode::UnknownError.is_fatal());
    assert!(!GatewayCloseCode::RateLimited.is_fatal());
    assert!(!GatewayCloseCode::SessionTimedOut.is_fatal());
    for (code, c) in [
        (GatewayCloseCode::UnknownError, 4000u16),
        (GatewayCloseCode::InvalidSeq, 4007),
        (GatewayCloseCode::DisallowedIntents, 4014),
    ] {
        assert_eq!(code.code(), c);
        assert_eq!(GatewayCloseCode::from_code(c), Some(code));
    }
}
