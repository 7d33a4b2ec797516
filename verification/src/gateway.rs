//! Wire-level vocabulary of the gateway protocol: opcodes, close codes
//! and the dispatch event names, with the exact numeric and textual
//! encodings the server uses.

use vstd::prelude::*;

verus! {

/// Identifier of a Discord entity, carried as its decimal text form.
pub type Snowflake = String;

/// Operation code of a gateway frame, the `op` field of the envelope.
#[derive(Clone, Copy, Debug, PartialEq, Eq, Structural)]
pub enum GatewayOpcode {
    /// An event was dispatched.
    Dispatch,
    /// Fired periodically by the client to keep the connection alive.
    Heartbeat,
    /// Starts a new session during the initial handshake.
    Identify,
    /// Update the client's presence.
    PresenceUpdate,
    /// Used to join, leave or move between voice channels.
    VoiceStateUpdate,
    /// Resume a previous session that was disconnected.
    Resume,
    /// The client should reconnect and resume immediately.
    Reconnect,
    /// Request information about offline guild members in a large guild.
    RequestGuildMembers,
    /// The session has been invalidated; reconnect and identify or resume.
    InvalidSession,
    /// Sent immediately after connecting; carries the heartbeat interval.
    Hello,
    /// Acknowledges a heartbeat.
    HeartbeatAck,
}

impl GatewayOpcode {
    /// Numeric value of this opcode on the wire.
    pub open spec fn code_spec(self) -> u64 {
        match self {
            GatewayOpcode::Dispatch => 0,
            GatewayOpcode::Heartbeat => 1,
            GatewayOpcode::Identify => 2,
            GatewayOpcode::PresenceUpdate => 3,
            GatewayOpcode::VoiceStateUpdate => 4,
            GatewayOpcode::Resume => 6,
            GatewayOpcode::Reconnect => 7,
            GatewayOpcode::RequestGuildMembers => 8,
            GatewayOpcode::InvalidSession => 9,
            GatewayOpcode::Hello => 10,
            GatewayOpcode::HeartbeatAck => 11,
        }
    }

    /// Opcode denoted by a numeric `op` field, if any.
    pub open spec fn from_code_spec(v: u64) -> Option<GatewayOpcode> {
        if v == 0 {
            Some(GatewayOpcode::Dispatch)
        } else if v == 1 {
            Some(GatewayOpcode::Heartbeat)
        } else if v == 2 {
            Some(GatewayOpcode::Identify)
        } else if v == 3 {
            Some(GatewayOpcode::PresenceUpdate)
        } else if v == 4 {
            Some(GatewayOpcode::VoiceStateUpdate)
        } else if v == 6 {
            Some(GatewayOpcode::Resume)
        } else if v == 7 {
            Some(GatewayOpcode::Reconnect)
        } else if v == 8 {
            Some(GatewayOpcode::RequestGuildMembers)
        } else if v == 9 {
            Some(GatewayOpcode::InvalidSession)
        } else if v == 10 {
            Some(GatewayOpcode::Hello)
        } else if v == 11 {
            Some(GatewayOpcode::HeartbeatAck)
        } else {
            None
        }
    }

    pub fn code(self) -> (r: u64)
        ensures
            r == self.code_spec(),
    {
        match self {
            GatewayOpcode::Dispatch => 0,
            GatewayOpcode::Heartbeat => 1,
            GatewayOpcode::Identify => 2,
            GatewayOpcode::PresenceUpdate => 3,
            GatewayOpcode::VoiceStateUpdate => 4,
            GatewayOpcode::Resume => 6,
            GatewayOpcode::Reconnect => 7,
            GatewayOpcode::RequestGuildMembers => 8,
            GatewayOpcode::InvalidSession => 9,
            GatewayOpcode::Hello => 10,
            GatewayOpcode::HeartbeatAck => 11,
        }
    }

    pub fn from_code(v: u64) -> (r: Option<GatewayOpcode>)
        ensures
            r == GatewayOpcode::from_code_spec(v),
    {
        if v == 0 {
            Some(GatewayOpcode::Dispatch)
        } else if v == 1 {
            Some(GatewayOpcode::Heartbeat)
        } else if v == 2 {
            Some(GatewayOpcode::Identify)
        } else if v == 3 {
            Some(GatewayOpcode::PresenceUpdate)
        } else if v == 4 {
            Some(GatewayOpcode::VoiceStateUpdate)
        } else if v == 6 {
            Some(GatewayOpcode::Resume)
        } else if v == 7 {
            Some(GatewayOpcode::Reconnect)
        } else if v == 8 {
            Some(GatewayOpcode::RequestGuildMembers)
        } else if v == 9 {
            Some(GatewayOpcode::InvalidSession)
        } else if v == 10 {
            Some(GatewayOpcode::Hello)
        } else if v == 11 {
            Some(GatewayOpcode::HeartbeatAck)
        } else {
            None
        }
    }

    /// Decoding inverts encoding: every opcode is recovered from its
    /// numeric value.
    pub proof fn lemma_code_round_trip(self)
        ensures
            GatewayOpcode::from_code_spec(self.code_spec()) == Some(self),
    {
    }
}

/// Close code of a gateway close frame.
#[derive(Clone, Copy, Debug, PartialEq, Eq, Structural)]
pub enum GatewayCloseCode {
    /// Something went wrong on the gateway side.
    UnknownError,
    /// An invalid opcode or an invalid payload for an opcode was sent.
    UnknownOpcode,
    /// An invalid payload was sent.
    DecodeError,
    /// A payload was sent prior to identifying.
    NotAuthenticated,
    /// The account token sent with the identify payload is incorrect.
    AuthenticationFailed,
    /// More than one identify payload was sent.
    AlreadyAuthenticated,
    /// The sequence sent when resuming the session was invalid.
    InvalidSeq,
    /// Payloads are being sent too quickly.
    RateLimited,
    /// The session timed out; reconnect and start a new one.
    SessionTimedOut,
    /// An invalid shard was sent when identifying.
    InvalidShard,
    /// Sharding the connection is required in order to connect.
    ShardingRequired,
    /// An invalid gateway version was sent.
    InvalidApiVersion,
    /// An invalid intent value was sent.
    InvalidIntents,
    /// A disallowed intent was sent.
    DisallowedIntents,
}

impl GatewayCloseCode {
    /// Numeric value of this close code on the wire.
    pub open spec fn code_spec(self) -> u16 {
        match self {
            GatewayCloseCode::UnknownError => 4000,
            GatewayCloseCode::UnknownOpcode => 4001,
            GatewayCloseCode::DecodeError => 4002,
            GatewayCloseCode::NotAuthenticated => 4003,
            GatewayCloseCode::AuthenticationFailed => 4004,
            GatewayCloseCode::AlreadyAuthenticated => 4005,
            GatewayCloseCode::InvalidSeq => 4007,
            GatewayCloseCode::RateLimited => 4008,
            GatewayCloseCode::SessionTimedOut => 4009,
            GatewayCloseCode::InvalidShard => 4010,
            GatewayCloseCode::ShardingRequired => 4011,
            GatewayCloseCode::InvalidApiVersion => 4012,
            GatewayCloseCode::InvalidIntents => 4013,
            GatewayCloseCode::DisallowedIntents => 4014,
        }
    }

    /// Close code denoted by a numeric value, if any.
    pub open spec fn from_code_spec(v: u16) -> Option<GatewayCloseCode> {
        if v == 4000 {
            Some(GatewayCloseCode::UnknownError)
        } else if v == 4001 {
            Some(GatewayCloseCode::UnknownOpcode)
        } else if v == 4002 {
            Some(GatewayCloseCode::DecodeError)
        } else if v == 4003 {
            Some(GatewayCloseCode::NotAuthenticated)
        } else if v == 4004 {
            Some(GatewayCloseCode::AuthenticationFailed)
        } else if v == 4005 {
            Some(GatewayCloseCode::AlreadyAuthenticated)
        } else if v == 4007 {
            Some(GatewayCloseCode::InvalidSeq)
        } else if v == 4008 {
            Some(GatewayCloseCode::RateLimited)
        } else if v == 4009 {
            Some(GatewayCloseCode::SessionTimedOut)
        } else if v == 4010 {
            Some(GatewayCloseCode::InvalidShard)
        } else if v == 4011 {
            Some(GatewayCloseCode::ShardingRequired)
        } else if v == 4012 {
            Some(GatewayCloseCode::InvalidApiVersion)
        } else if v == 4013 {
            Some(GatewayCloseCode::InvalidIntents)
        } else if v == 4014 {
            Some(GatewayCloseCode::DisallowedIntents)
        } else {
            None
        }
    }

    /// A fatal close code reports an identify-level client fault (bad
    /// token, bad or disallowed intents, bad shard, sharding required,
    /// bad gateway version); no reconnect should be attempted after one.
    pub open spec fn is_fatal_spec(self) -> bool {
        self == GatewayCloseCode::AuthenticationFailed
            || self == GatewayCloseCode::InvalidShard
            || self == GatewayCloseCode::ShardingRequired
            || self == GatewayCloseCode::InvalidApiVersion
            || self == GatewayCloseCode::InvalidIntents
            || self == GatewayCloseCode::DisallowedIntents
    }

    pub fn code(self) -> (r: u16)
        ensures
            r == self.code_spec(),
    {
        match self {
            GatewayCloseCode::UnknownError => 4000,
            GatewayCloseCode::UnknownOpcode => 4001,
            GatewayCloseCode::DecodeError => 4002,
            GatewayCloseCode::NotAuthenticated => 4003,
            GatewayCloseCode::AuthenticationFailed => 4004,
            GatewayCloseCode::AlreadyAuthenticated => 4005,
            GatewayCloseCode::InvalidSeq => 4007,
            GatewayCloseCode::RateLimited => 4008,
            GatewayCloseCode::SessionTimedOut => 4009,
            GatewayCloseCode::InvalidShard => 4010,
            GatewayCloseCode::ShardingRequired => 4011,
            GatewayCloseCode::InvalidApiVersion => 4012,
            GatewayCloseCode::InvalidIntents => 4013,
            GatewayCloseCode::DisallowedIntents => 4014,
        }
    }

    pub fn from_code(v: u16) -> (r: Option<GatewayCloseCode>)
        ensures
            r == GatewayCloseCode::from_code_spec(v),
    {
        if v == 4000 {
            Some(GatewayCloseCode::UnknownError)
        } else if v == 4001 {
            Some(GatewayCloseCode::UnknownOpcode)
        } else if v == 4002 {
            Some(GatewayCloseCode::DecodeError)
        } else if v == 4003 {
            Some(GatewayCloseCode::NotAuthenticated)
        } else if v == 4004 {
            Some(GatewayCloseCode::AuthenticationFailed)
        } else if v == 4005 {
            Some(GatewayCloseCode::AlreadyAuthenticated)
        } else if v == 4007 {
            Some(GatewayCloseCode::InvalidSeq)
        } else if v == 4008 {
            Some(GatewayCloseCode::RateLimited)
        } else if v == 4009 {
            Some(GatewayCloseCode::SessionTimedOut)
        } else if v == 4010 {
            Some(GatewayCloseCode::InvalidShard)
        } else if v == 4011 {
            Some(GatewayCloseCode::ShardingRequired)
        } else if v == 4012 {
            Some(GatewayCloseCode::InvalidApiVersion)
        } else if v == 4013 {
            Some(GatewayCloseCode::InvalidIntents)
        } else if v == 4014 {
            Some(GatewayCloseCode::DisallowedIntents)
        } else {
            None
        }
    }

    pub fn is_fatal(self) -> (r: bool)
        ensures
            r == self.is_fatal_spec(),
    {
        match self {
            GatewayCloseCode::UnknownError => false,
            GatewayCloseCode::UnknownOpcode => false,
            GatewayCloseCode::DecodeError => false,
            GatewayCloseCode::NotAuthenticated => false,
            GatewayCloseCode::AuthenticationFailed => true,
            GatewayCloseCode::AlreadyAuthenticated => false,
            GatewayCloseCode::InvalidSeq => false,
            GatewayCloseCode::RateLimited => false,
            GatewayCloseCode::SessionTimedOut => false,
            GatewayCloseCode::InvalidShard => true,
            GatewayCloseCode::ShardingRequired => true,
            GatewayCloseCode::InvalidApiVersion => true,
            GatewayCloseCode::InvalidIntents => true,
            GatewayCloseCode::DisallowedIntents => true,
        }
    }

    /// Decoding inverts encoding: every close code is recovered from
    /// its numeric value.
    pub proof fn lemma_code_round_trip(self)
        ensures
            GatewayCloseCode::from_code_spec(self.code_spec()) == Some(self),
    {
    }
}

/// Tests whether two string slices hold the same characters.
pub fn str_eq(a: &str, b: &str) -> (r: bool)
    ensures
        r == (a@ == b@),
{
    let oa = a.to_owned();
    let ob = b.to_owned();
    oa == ob
}

/// Name of a dispatch event, the `t` field of a dispatch frame.
#[derive(Clone, Copy, Debug, PartialEq, Eq, Structural)]
pub enum GatewayDispatchEvents {
    ApplicationCommandPermissionsUpdate,
    ChannelCreate,
    ChannelDelete,
    ChannelPinsUpdate,
    ChannelUpdate,
    GuildBanAdd,
    GuildBanRemove,
    GuildCreate,
    GuildDelete,
    GuildEmojisUpdate,
    GuildIntegrationsUpdate,
    GuildMemberAdd,
    GuildMemberRemove,
    GuildMembersChunk,
    GuildMemberUpdate,
    GuildRoleCreate,
    GuildRoleDelete,
    GuildRoleUpdate,
    GuildStickersUpdate,
    GuildUpdate,
    IntegrationCreate,
    IntegrationDelete,
    IntegrationUpdate,
    InteractionCreate,
    InviteCreate,
    InviteDelete,
    MessageCreate,
    MessageDelete,
    MessageDeleteBulk,
    MessageReactionAdd,
    MessageReactionRemove,
    MessageReactionRemoveAll,
    MessageReactionRemoveEmoji,
    MessageUpdate,
    PresenceUpdate,
    StageInstanceCreate,
    StageInstanceDelete,
    StageInstanceUpdate,
    Ready,
    Resumed,
    ThreadCreate,
    ThreadDelete,
    ThreadListSync,
    ThreadMemberUpdate,
    ThreadMembersUpdate,
    ThreadUpdate,
    TypingStart,
    UserUpdate,
    VoiceServerUpdate,
    VoiceStateUpdate,
    WebhooksUpdate,
    GuildScheduledEventCreate,
    GuildScheduledEventUpdate,
    GuildScheduledEventDelete,
    GuildScheduledEventUserAdd,
    GuildScheduledEventUserRemove,
    AutoModerationRuleCreate,
    AutoModerationRuleUpdate,
    AutoModerationRuleDelete,
    AutoModerationActionExecution,
    GuildAuditLogEntryCreate,
}

impl GatewayDispatchEvents {
    /// Event denoted by a wire event name, if any.
    pub open spec fn from_name_spec(n: Seq<char>) -> Option<GatewayDispatchEvents> {
        if n == "APPLICATION_COMMAND_PERMISSIONS_UPDATE"@ {
            Some(GatewayDispatchEvents::ApplicationCommandPermissionsUpdate)
        } else if n == "CHANNEL_CREATE"@ {
            Some(GatewayDispatchEvents::ChannelCreate)
        } else if n == "CHANNEL_DELETE"@ {
            Some(GatewayDispatchEvents::ChannelDelete)
        } else if n == "CHANNEL_PINS_UPDATE"@ {
            Some(GatewayDispatchEvents::ChannelPinsUpdate)
        } else if n == "CHANNEL_UPDATE"@ {
            Some(GatewayDispatchEvents::ChannelUpdate)
        } else if n == "GUILD_BAN_ADD"@ {
            Some(GatewayDispatchEvents::GuildBanAdd)
        } else if n == "GUILD_BAN_REMOVE"@ {
            Some(GatewayDispatchEvents::GuildBanRemove)
        } else if n == "GUILD_CREATE"@ {
            Some(GatewayDispatchEvents::GuildCreate)
        } else if n == "GUILD_DELETE"@ {
            Some(GatewayDispatchEvents::GuildDelete)
        } else if n == "GUILD_EMOJIS_UPDATE"@ {
            Some(GatewayDispatchEvents::GuildEmojisUpdate)
        } else if n == "GUILD_INTEGRATIONS_UPDATE"@ {
            Some(GatewayDispatchEvents::GuildIntegrationsUpdate)
        } else if n == "GUILD_MEMBER_ADD"@ {
            Some(GatewayDispatchEvents::GuildMemberAdd)
        } else if n == "GUILD_MEMBER_REMOVE"@ {
            Some(GatewayDispatchEvents::GuildMemberRemove)
        } else if n == "GUILD_MEMBERS_CHUNK"@ {
            Some(GatewayDispatchEvents::GuildMembersChunk)
        } else if n == "GUILD_MEMBER_UPDATE"@ {
            Some(GatewayDispatchEvents::GuildMemberUpdate)
        } else if n == "GUILD_ROLE_CREATE"@ {
            Some(GatewayDispatchEvents::GuildRoleCreate)
        } else if n == "GUILD_ROLE_DELETE"@ {
            Some(GatewayDispatchEvents::GuildRoleDelete)
        } else if n == "GUILD_ROLE_UPDATE"@ {
            Some(GatewayDispatchEvents::GuildRoleUpdate)
        } else if n == "GUILD_STICKERS_UPDATE"@ {
            Some(GatewayDispatchEvents::GuildStickersUpdate)
        } else if n == "GUILD_UPDATE"@ {
            Some(GatewayDispatchEvents::GuildUpdate)
        } else if n == "INTEGRATION_CREATE"@ {
            Some(GatewayDispatchEvents::IntegrationCreate)
        } else if n == "INTEGRATION_DELETE"@ {
            Some(GatewayDispatchEvents::IntegrationDelete)
        } else if n == "INTEGRATION_UPDATE"@ {
            Some(GatewayDispatchEvents::IntegrationUpdate)
        } else if n == "INTERACTION_CREATE"@ {
            Some(GatewayDispatchEvents::InteractionCreate)
        } else if n == "INVITE_CREATE"@ {
            Some(GatewayDispatchEvents::InviteCreate)
        } else if n == "INVITE_DELETE"@ {
            Some(GatewayDispatchEvents::InviteDelete)
        } else if n == "MESSAGE_CREATE"@ {
            Some(GatewayDispatchEvents::MessageCreate)
        } else if n == "MESSAGE_DELETE"@ {
            Some(GatewayDispatchEvents::MessageDelete)
        } else if n == "MESSAGE_DELETE_BULK"@ {
            Some(GatewayDispatchEvents::MessageDeleteBulk)
        } else if n == "MESSAGE_REACTION_ADD"@ {
            Some(GatewayDispatchEvents::MessageReactionAdd)
        } else if n == "MESSAGE_REACTION_REMOVE"@ {
            Some(GatewayDispatchEvents::MessageReactionRemove)
        } else if n == "MESSAGE_REACTION_REMOVE_ALL"@ {
            Some(GatewayDispatchEvents::MessageReactionRemoveAll)
        } else if n == "MESSAGE_REACTION_REMOVE_EMOJI"@ {
            Some(GatewayDispatchEvents::MessageReactionRemoveEmoji)
        } else if n == "MESSAGE_UPDATE"@ {
            Some(GatewayDispatchEvents::MessageUpdate)
        } else if n == "PRESENCE_UPDATE"@ {
            Some(GatewayDispatchEvents::PresenceUpdate)
        } else if n == "STAGE_INSTANCE_CREATE"@ {
            Some(GatewayDispatchEvents::StageInstanceCreate)
        } else if n == "STAGE_INSTANCE_DELETE"@ {
            Some(GatewayDispatchEvents::StageInstanceDelete)
        } else if n == "STAGE_INSTANCE_UPDATE"@ {
            Some(GatewayDispatchEvents::StageInstanceUpdate)
        } else if n == "READY"@ {
            Some(GatewayDispatchEvents::Ready)
        } else if n == "RESUMED"@ {
            Some(GatewayDispatchEvents::Resumed)
        } else if n == "THREAD_CREATE"@ {
            Some(GatewayDispatchEvents::ThreadCreate)
        } else if n == "THREAD_DELETE"@ {
            Some(GatewayDispatchEvents::ThreadDelete)
        } else if n == "THREAD_LIST_SYNC"@ {
            Some(GatewayDispatchEvents::ThreadListSync)
        } else if n == "THREAD_MEMBER_UPDATE"@ {
            Some(GatewayDispatchEvents::ThreadMemberUpdate)
        } else if n == "THREAD_MEMBERS_UPDATE"@ {
            Some(GatewayDispatchEvents::ThreadMembersUpdate)
        } else if n == "THREAD_UPDATE"@ {
            Some(GatewayDispatchEvents::ThreadUpdate)
        } else if n == "TYPING_START"@ {
            Some(GatewayDispatchEvents::TypingStart)
        } else if n == "USER_UPDATE"@ {
            Some(GatewayDispatchEvents::UserUpdate)
        } else if n == "VOICE_SERVER_UPDATE"@ {
            Some(GatewayDispatchEvents::VoiceServerUpdate)
        } else if n == "VOICE_STATE_UPDATE"@ {
            Some(GatewayDispatchEvents::VoiceStateUpdate)
        } else if n == "WEBHOOKS_UPDATE"@ {
            Some(GatewayDispatchEvents::WebhooksUpdate)
        } else if n == "GUILD_SCHEDULED_EVENT_CREATE"@ {
            Some(GatewayDispatchEvents::GuildScheduledEventCreate)
        } else if n == "GUILD_SCHEDULED_EVENT_UPDATE"@ {
            Some(GatewayDispatchEvents::GuildScheduledEventUpdate)
        } else if n == "GUILD_SCHEDULED_EVENT_DELETE"@ {
            Some(GatewayDispatchEvents::GuildScheduledEventDelete)
        } else if n == "GUILD_SCHEDULED_EVENT_USER_ADD"@ {
            Some(GatewayDispatchEvents::GuildScheduledEventUserAdd)
        } else if n == "GUILD_SCHEDULED_EVENT_USER_REMOVE"@ {
            Some(GatewayDispatchEvents::GuildScheduledEventUserRemove)
        } else if n == "AUTO_MODERATION_RULE_CREATE"@ {
            Some(GatewayDispatchEvents::AutoModerationRuleCreate)
        } else if n == "AUTO_MODERATION_RULE_UPDATE"@ {
            Some(GatewayDispatchEvents::AutoModerationRuleUpdate)
        } else if n == "AUTO_MODERATION_RULE_DELETE"@ {
            Some(GatewayDispatchEvents::AutoModerationRuleDelete)
        } else if n == "AUTO_MODERATION_ACTION_EXECUTION"@ {
            Some(GatewayDispatchEvents::AutoModerationActionExecution)
        } else if n == "GUILD_AUDIT_LOG_ENTRY_CREATE"@ {
            Some(GatewayDispatchEvents::GuildAuditLogEntryCreate)
        } else {
            None
        }
    }

    pub fn from_event_name(name: &str) -> (r: Option<GatewayDispatchEvents>)
        ensures
            r == GatewayDispatchEvents::from_name_spec(name@),
    {
        if str_eq(name, "APPLICATION_COMMAND_PERMISSIONS_UPDATE") {
            Some(GatewayDispatchEvents::ApplicationCommandPermissionsUpdate)
        } else if str_eq(name, "CHANNEL_CREATE") {
            Some(GatewayDispatchEvents::ChannelCreate)
        } else if str_eq(name, "CHANNEL_DELETE") {
            Some(GatewayDispatchEvents::ChannelDelete)
        } else if str_eq(name, "CHANNEL_PINS_UPDATE") {
            Some(GatewayDispatchEvents::ChannelPinsUpdate)
        } else if str_eq(name, "CHANNEL_UPDATE") {
            Some(GatewayDispatchEvents::ChannelUpdate)
        } else if str_eq(name, "GUILD_BAN_ADD") {
            Some(GatewayDispatchEvents::GuildBanAdd)
        } else if str_eq(name, "GUILD_BAN_REMOVE") {
            Some(GatewayDispatchEvents::GuildBanRemove)
        } else if str_eq(name, "GUILD_CREATE") {
            Some(GatewayDispatchEvents::GuildCreate)
        } else if str_eq(name, "GUILD_DELETE") {
            Some(GatewayDispatchEvents::GuildDelete)
        } else if str_eq(name, "GUILD_EMOJIS_UPDATE") {
            Some(GatewayDispatchEvents::GuildEmojisUpdate)
        } else if str_eq(name, "GUILD_INTEGRATIONS_UPDATE") {
            Some(GatewayDispatchEvents::GuildIntegrationsUpdate)
        } else if str_eq(name, "GUILD_MEMBER_ADD") {
            Some(GatewayDispatchEvents::GuildMemberAdd)
        } else if str_eq(name, "GUILD_MEMBER_REMOVE") {
            Some(GatewayDispatchEvents::GuildMemberRemove)
        } else if str_eq(name, "GUILD_MEMBERS_CHUNK") {
            Some(GatewayDispatchEvents::GuildMembersChunk)
        } else if str_eq(name, "GUILD_MEMBER_UPDATE") {
            Some(GatewayDispatchEvents::GuildMemberUpdate)
        } else if str_eq(name, "GUILD_ROLE_CREATE") {
            Some(GatewayDispatchEvents::GuildRoleCreate)
        } else if str_eq(name, "GUILD_ROLE_DELETE") {
            Some(GatewayDispatchEvents::GuildRoleDelete)
        } else if str_eq(name, "GUILD_ROLE_UPDATE") {
            Some(GatewayDispatchEvents::GuildRoleUpdate)
        } else if str_eq(name, "GUILD_STICKERS_UPDATE") {
            Some(GatewayDispatchEvents::GuildStickersUpdate)
        } else if str_eq(name, "GUILD_UPDATE") {
            Some(GatewayDispatchEvents::GuildUpdate)
        } else if str_eq(name, "INTEGRATION_CREATE") {
            Some(GatewayDispatchEvents::IntegrationCreate)
        } else if str_eq(name, "INTEGRATION_DELETE") {
            Some(GatewayDispatchEvents::IntegrationDelete)
        } else if str_eq(name, "INTEGRATION_UPDATE") {
            Some(GatewayDispatchEvents::IntegrationUpdate)
        } else if str_eq(name, "INTERACTION_CREATE") {
            Some(GatewayDispatchEvents::InteractionCreate)
        } else if str_eq(name, "INVITE_CREATE") {
            Some(GatewayDispatchEvents::InviteCreate)
        } else if str_eq(name, "INVITE_DELETE") {
            Some(GatewayDispatchEvents::InviteDelete)
        } else if str_eq(name, "MESSAGE_CREATE") {
            Some(GatewayDispatchEvents::MessageCreate)
        } else if str_eq(name, "MESSAGE_DELETE") {
            Some(GatewayDispatchEvents::MessageDelete)
        } else if str_eq(name, "MESSAGE_DELETE_BULK") {
            Some(GatewayDispatchEvents::MessageDeleteBulk)
        } else if str_eq(name, "MESSAGE_REACTION_ADD") {
            Some(GatewayDispatchEvents::MessageReactionAdd)
        } else if str_eq(name, "MESSAGE_REACTION_REMOVE") {
            Some(GatewayDispatchEvents::MessageReactionRemove)
        } else if str_eq(name, "MESSAGE_REACTION_REMOVE_ALL") {
            Some(GatewayDispatchEvents::MessageReactionRemoveAll)
        } else if str_eq(name, "MESSAGE_REACTION_REMOVE_EMOJI") {
            Some(GatewayDispatchEvents::MessageReactionRemoveEmoji)
        } else if str_eq(name, "MESSAGE_UPDATE") {
            Some(GatewayDispatchEvents::MessageUpdate)
        } else if str_eq(name, "PRESENCE_UPDATE") {
            Some(GatewayDispatchEvents::PresenceUpdate)
        } else if str_eq(name, "STAGE_INSTANCE_CREATE") {
            Some(GatewayDispatchEvents::StageInstanceCreate)
        } else if str_eq(name, "STAGE_INSTANCE_DELETE") {
            Some(GatewayDispatchEvents::StageInstanceDelete)
        } else if str_eq(name, "STAGE_INSTANCE_UPDATE") {
            Some(GatewayDispatchEvents::StageInstanceUpdate)
        } else if str_eq(name, "READY") {
            Some(GatewayDispatchEvents::Ready)
        } else if str_eq(name, "RESUMED") {
            Some(GatewayDispatchEvents::Resumed)
        } else if str_eq(name, "THREAD_CREATE") {
            Some(GatewayDispatchEvents::ThreadCreate)
        } else if str_eq(name, "THREAD_DELETE") {
            Some(GatewayDispatchEvents::ThreadDelete)
        } else if str_eq(name, "THREAD_LIST_SYNC") {
            Some(GatewayDispatchEvents::ThreadListSync)
        } else if str_eq(name, "THREAD_MEMBER_UPDATE") {
            Some(GatewayDispatchEvents::ThreadMemberUpdate)
        } else if str_eq(name, "THREAD_MEMBERS_UPDATE") {
            Some(GatewayDispatchEvents::ThreadMembersUpdate)
        } else if str_eq(name, "THREAD_UPDATE") {
            Some(GatewayDispatchEvents::ThreadUpdate)
        } else if str_eq(name, "TYPING_START") {
            Some(GatewayDispatchEvents::TypingStart)
        } else if str_eq(name, "USER_UPDATE") {
            Some(GatewayDispatchEvents::UserUpdate)
        } else if str_eq(name, "VOICE_SERVER_UPDATE") {
            Some(GatewayDispatchEvents::VoiceServerUpdate)
        } else if str_eq(name, "VOICE_STATE_UPDATE") {
            Some(GatewayDispatchEvents::VoiceStateUpdate)
        } else if str_eq(name, "WEBHOOKS_UPDATE") {
            Some(GatewayDispatchEvents::WebhooksUpdate)
        } else if str_eq(name, "GUILD_SCHEDULED_EVENT_CREATE") {
            Some(GatewayDispatchEvents::GuildScheduledEventCreate)
        } else if str_eq(name, "GUILD_SCHEDULED_EVENT_UPDATE") {
            Some(GatewayDispatchEvents::GuildScheduledEventUpdate)
        } else if str_eq(name, "GUILD_SCHEDULED_EVENT_DELETE") {
            Some(GatewayDispatchEvents::GuildScheduledEventDelete)
        } else if str_eq(name, "GUILD_SCHEDULED_EVENT_USER_ADD") {
            Some(GatewayDispatchEvents::GuildScheduledEventUserAdd)
        } else if str_eq(name, "GUILD_SCHEDULED_EVENT_USER_REMOVE") {
            Some(GatewayDispatchEvents::GuildScheduledEventUserRemove)
        } else if str_eq(name, "AUTO_MODERATION_RULE_CREATE") {
            Some(GatewayDispatchEvents::AutoModerationRuleCreate)
        } else if str_eq(name, "AUTO_MODERATION_RULE_UPDATE") {
            Some(GatewayDispatchEvents::AutoModerationRuleUpdate)
        } else if str_eq(name, "AUTO_MODERATION_RULE_DELETE") {
            Some(GatewayDispatchEvents::AutoModerationRuleDelete)
        } else if str_eq(name, "AUTO_MODERATION_ACTION_EXECUTION") {
            Some(GatewayDispatchEvents::AutoModerationActionExecution)
        } else if str_eq(name, "GUILD_AUDIT_LOG_ENTRY_CREATE") {
            Some(GatewayDispatchEvents::GuildAuditLogEntryCreate)
        } else {
            None
        }
    }
}

/// Error of parsing a dispatch event name that the protocol does not
/// define.
#[derive(Clone, Copy, Debug, PartialEq, Eq, Structural)]
pub struct ParseEventError;

impl core::str::FromStr for GatewayDispatchEvents {
    type Err = ParseEventError;

    fn from_str(s: &str) -> core::result::Result<GatewayDispatchEvents, ParseEventError> {
        match GatewayDispatchEvents::from_event_name(s) {
            Some(e) => Ok(e),
            None => Err(ParseEventError),
        }
    }
}

} // verus!
