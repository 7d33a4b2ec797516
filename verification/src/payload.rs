//! Payload types carried over the gateway: the commands a client sends
//! and the events it receives.

use vstd::prelude::*;

use crate::gateway::{GatewayDispatchEvents, Snowflake};

verus! {

/// Client platform description sent inside an identify payload.
#[derive(Debug)]
pub struct IdentifyConnectionProperties {
    pub os: String,
    pub browser: String,
    pub device: String,
}

impl Clone for IdentifyConnectionProperties {
    fn clone(&self) -> (res: IdentifyConnectionProperties)
        ensures
            res == *self,
    {
        IdentifyConnectionProperties {
            os: self.os.clone(),
            browser: self.browser.clone(),
            device: self.device.clone(),
        }
    }
}

impl Default for IdentifyConnectionProperties {
    /// `os` and `browser` default to the library identification string;
    /// callers that know the host platform overwrite `device`.
    fn default() -> (r: IdentifyConnectionProperties)
        ensures
            r.os@ == "rucord 0.1.0"@,
            r.browser@ == "rucord 0.1.0"@,
            r.device@ == "unknown"@,
    {
        IdentifyConnectionProperties {
            os: "rucord 0.1.0".to_owned(),
            browser: "rucord 0.1.0".to_owned(),
            device: "unknown".to_owned(),
        }
    }
}

/// Data of an identify command: authenticates the session and declares
/// intents and the shard slot.
#[derive(Clone, Debug)]
pub struct IdentifyData {
    pub token: String,
    pub properties: IdentifyConnectionProperties,
    pub compress: Option<bool>,
    pub large_threshold: Option<u64>,
    pub shard: Option<(u64, u64)>,
    pub presence: Option<UpdatePresenceData>,
    pub intents: u64,
}

impl Default for IdentifyData {
    fn default() -> (r: IdentifyData)
        ensures
            r.token@ == Seq::<char>::empty(),
            r.properties.os@ == "rucord 0.1.0"@,
            r.properties.browser@ == "rucord 0.1.0"@,
            r.properties.device@ == "unknown"@,
            r.compress is None,
            r.large_threshold is None,
            r.shard is None,
            r.presence is None,
            r.intents == 0,
    {
        IdentifyData {
            token: String::new(),
            properties: Default::default(),
            compress: None,
            large_threshold: None,
            shard: None,
            presence: None,
            intents: 0,
        }
    }
}

/// Data of a resume command: reclaims a disconnected session.
#[derive(Clone, Debug)]
pub struct ResumeData {
    pub token: String,
    pub session_id: String,
    pub seq: i64,
}

/// Data of a guild-members request.
#[derive(Clone, Debug)]
pub struct RequestGuildMembersData {
    pub guild_id: Snowflake,
    pub query: Option<String>,
    pub limit: u64,
    pub presences: Option<bool>,
    pub user_ids: Option<Vec<Snowflake>>,
    pub nonce: Option<String>,
}

/// Data of a voice-state update.
#[derive(Clone, Debug)]
pub struct VoiceStateUpdateData {
    pub guild_id: Snowflake,
    pub channel_id: Snowflake,
    pub self_mute: bool,
    pub self_deaf: bool,
}

/// Presence status advertised in a presence update.
#[derive(Clone, Copy, Debug, PartialEq, Eq, Structural)]
pub enum PresenceStateType {
    Online,
    Dnd,
    Idle,
    Invisible,
    Offline,
}

impl PresenceStateType {
    /// JSON string (quotes included) this status serializes to.
    pub open spec fn json_spec(self) -> Seq<char> {
        match self {
            PresenceStateType::Online => "\"online\""@,
            PresenceStateType::Dnd => "\"dnd\""@,
            PresenceStateType::Idle => "\"idle\""@,
            PresenceStateType::Invisible => "\"invisible\""@,
            PresenceStateType::Offline => "\"offline\""@,
        }
    }

    pub fn json_text(self) -> (r: &'static str)
        ensures
            r@ == self.json_spec(),
    {
        match self {
            PresenceStateType::Online => "\"online\"",
            PresenceStateType::Dnd => "\"dnd\"",
            PresenceStateType::Idle => "\"idle\"",
            PresenceStateType::Invisible => "\"invisible\"",
            PresenceStateType::Offline => "\"offline\"",
        }
    }
}

/// Data of a presence update. Activity objects are user-supplied and
/// opaque to the runtime; each entry holds one activity already rendered
/// as JSON text, and the serializer splices them into the payload as
/// they stand.
#[derive(Clone, Debug)]
pub struct UpdatePresenceData {
    pub since: Option<u64>,
    pub activities: Vec<String>,
    pub status: PresenceStateType,
    pub afk: bool,
}

/// A command the client sends over the gateway.
#[derive(Clone, Debug)]
pub enum GatewaySendPayload {
    Identify(IdentifyData),
    Resume(ResumeData),
    Heartbeat(Option<i64>),
    RequestGuildMembers(RequestGuildMembersData),
    VoiceStateUpdate(VoiceStateUpdateData),
    UpdatePresence(UpdatePresenceData),
}

/// Initial state information delivered by the READY dispatch. The
/// `user`, `guilds` and `application` entities are carried through to
/// the application unexamined.
#[derive(Debug)]
pub struct ReadyData {
    pub v: u8,
    pub user: serde_json::Value,
    pub guilds: serde_json::Value,
    pub session_id: String,
    pub resume_gateway_url: String,
    pub shard: Option<(u64, u64)>,
    pub application: serde_json::Value,
}

/// Data of one dispatch frame.
#[derive(Debug)]
pub enum DispatchPayload {
    /// Initial handshake completion.
    Ready(ReadyData),
    /// Reply to a resume command.
    Resume,
    /// Any other event the protocol defines; the data object is carried
    /// through when the frame held one.
    Other(GatewayDispatchEvents, Option<serde_json::Map<String, serde_json::Value>>),
    /// An event name the protocol does not define, with the remaining
    /// fields of the frame.
    Unknown(String, serde_json::Map<String, serde_json::Value>),
}

/// A frame received from the gateway.
#[derive(Debug)]
pub enum GatewayReceivePayload {
    /// Carries the heartbeat interval in milliseconds.
    Hello(u64),
    /// The server asks for an immediate heartbeat.
    HeartbeatRequest,
    /// Acknowledges a heartbeat.
    HeartbeatAck,
    /// The session was invalidated; the payload tells whether it can be
    /// resumed.
    InvalidSession(bool),
    /// The client should reconnect and resume.
    Reconnect,
    /// An event, with its sequence number.
    Dispatch(i64, DispatchPayload),
    /// An opcode the protocol does not define for receiving, with the
    /// remaining fields of the frame.
    UnknownOp(u64, serde_json::Map<String, serde_json::Value>),
}

} // verus!
