use rucord::gateway::GatewayDispatchEvents;

#[test]
fn every_event_name_maps_to_its_event() {
    let table = [
        (GatewayDispatchEvents::ApplicationCommandPermissionsUpdate, "APPLICATION_COMMAND_PERMISSIONS_UPDATE"),
        (GatewayDispatchEvents::ChannelCreate, "CHANNEL_CREATE"),
        (GatewayDispatchEvents::ChannelDelete, "CHANNEL_DELETE"),
        (GatewayDispatchEvents::ChannelPinsUpdate, "CHANNEL_PINS_UPDATE"),
        (GatewayDispatchEvents::ChannelUpdate, "CHANNEL_UPDATE"),
        (GatewayDispatchEvents::GuildBanAdd, "GUILD_BAN_ADD"),
        (GatewayDispatchEvents::GuildBanRemove, "GUILD_BAN_REMOVE"),
        (GatewayDispatchEvents::GuildCreate, "GUILD_CREATE"),
        (GatewayDispatchEvents::GuildDelete, "GUILD_DELETE"),
        (GatewayDispatchEvents::GuildEmojisUpdate, "GUILD_EMOJIS_UPDATE"),
        (GatewayDispatchEvents::GuildIntegrationsUpdate, "GUILD_INTEGRATIONS_UPDATE"),
        (GatewayDispatchEvents::GuildMemberAdd, "GUILD_MEMBER_ADD"),
        (GatewayDispatchEvents::GuildMemberRemove, "GUILD_MEMBER_REMOVE"),
        (GatewayDispatchEvents::GuildMembersChunk, "GUILD_MEMBERS_CHUNK"),
        (GatewayDispatchEvents::GuildMemberUpdate, "GUILD_MEMBER_UPDATE"),
        (GatewayDispatchEvents::GuildRoleCreate, "GUILD_ROLE_CREATE"),
        (GatewayDispatchEvents::GuildRoleDelete, "GUILD_ROLE_DELETE"),
        (GatewayDispatchEvents::GuildRoleUpdate, "GUILD_ROLE_UPDATE"),
        (GatewayDispatchEvents::GuildStickersUpdate, "GUILD_STICKERS_UPDATE"),
        (GatewayDispatchEvents::GuildUpdate, "GUILD_UPDATE"),
        (GatewayDispatchEvents::IntegrationCreate, "INTEGRATION_CREATE"),
        (GatewayDispatchEvents::IntegrationDelete, "INTEGRATION_DELETE"),
        (GatewayDispatchEvents::IntegrationUpdate, "INTEGRATION_UPDATE"),
        (GatewayDispatchEvents::InteractionCreate, "INTERACTION_CREATE"),
        (GatewayDispatchEvents::InviteCreate, "INVITE_CREATE"),
        (GatewayDispatchEvents::InviteDelete, "INVITE_DELETE"),
        (GatewayDispatchEvents::MessageCreate, "MESSAGE_CREATE"),
        (GatewayDispatchEvents::MessageDelete, "MESSAGE_DELETE"),
        (GatewayDispatchEvents::MessageDeleteBulk, "MESSAGE_DELETE_BULK"),
        (GatewayDispatchEvents::MessageReactionAdd, "MESSAGE_REACTION_ADD"),
        (GatewayDispatchEvents::MessageReactionRemove, "MESSAGE_REACTION_REMOVE"),
        (GatewayDispatchEvents::MessageReactionRemoveAll, "MESSAGE_REACTION_REMOVE_ALL"),
        (GatewayDispatchEvents::MessageReactionRemoveEmoji, "MESSAGE_REACTION_REMOVE_EMOJI"),
        (GatewayDispatchEvents::MessageUpdate, "MESSAGE_UPDATE"),
        (GatewayDispatchEvents::PresenceUpdate, "PRESENCE_UPDATE"),
        (GatewayDispatchEvents::StageInstanceCreate, "STAGE_INSTANCE_CREATE"),
        (GatewayDispatchEvents::StageInstanceDelete, "STAGE_INSTANCE_DELETE"),
        (GatewayDispatchEvents::StageInstanceUpdate, "STAGE_INSTANCE_UPDATE"),
        (GatewayDispatchEvents::Ready, "READY"),
        (GatewayDispatchEvents::Resumed, "RESUMED"),
        (GatewayDispatchEvents::ThreadCreate, "THREAD_CREATE"),
        (GatewayDispatchEvents::ThreadDelete, "THREAD_DELETE"),
        (GatewayDispatchEvents::ThreadListSync, "THREAD_LIST_SYNC"),
        (GatewayDispatchEvents::ThreadMemberUpdate, "THREAD_MEMBER_UPDATE"),
        (GatewayDispatchEvents::ThreadMembersUpdate, "THREAD_MEMBERS_UPDATE"),
        (GatewayDispatchEvents::ThreadUpdate, "THREAD_UPDATE"),
        (GatewayDispatchEvents::TypingStart, "TYPING_START"),
        (GatewayDispatchEvents::UserUpdate, "USER_UPDATE"),
        (GatewayDispatchEvents::VoiceServerUpdate, "VOICE_SERVER_UPDATE"),
        (GatewayDispatchEvents::VoiceStateUpdate, "VOICE_STATE_UPDATE"),
        (GatewayDispatchEvents::WebhooksUpdate, "WEBHOOKS_UPDATE"),
        (GatewayDispatchEvents::GuildScheduledEventCreate, "GUILD_SCHEDULED_EVENT_CREATE"),
        (GatewayDispatchEvents::GuildScheduledEventUpdate, "GUILD_SCHEDULED_EVENT_UPDATE"),
        (GatewayDispatchEvents::GuildScheduledEventDelete, "GUILD_SCHEDULED_EVENT_DELETE"),
        (GatewayDispatchEvents::GuildScheduledEventUserAdd, "GUILD_SCHEDULED_EVENT_USER_ADD"),
        (GatewayDispatchEvents::GuildScheduledEventUserRemove, "GUILD_SCHEDULED_EVENT_USER_REMOVE"),
        (GatewayDispatchEvents::AutoModerationRuleCreate, "AUTO_MODERATION_RULE_CREATE"),
        (GatewayDispatchEvents::AutoModerationRuleUpdate, "AUTO_MODERATION_RULE_UPDATE"),
        (GatewayDispatchEvents::AutoModerationRuleDelete, "AUTO_MODERATION_RULE_DELETE"),
        (GatewayDispatchEvents::AutoModerationActionExecution, "AUTO_MODERATION_ACTION_EXECUTION"),
        (GatewayDispatchEvents::GuildAuditLogEntryCreate, "GUILD_AUDIT_LOG_ENTRY_CREATE"),
    ];
    for (event, name) in table {
        assert_eq!(GatewayDispatchEvents::from_event_name(name), Some(event));
    }
}
