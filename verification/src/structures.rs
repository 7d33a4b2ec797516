//! Domain objects fetched from the REST side of the platform: gateway
//! capacity, users and guilds, and the options of the REST client.

use vstd::prelude::*;

use crate::gateway::Snowflake;

verus! {

/// A gateway URL for connecting without a bot account.
#[derive(Clone, Debug, PartialEq)]
pub struct GatewayObject {
    /// WSS URL for connecting to the gateway.
    pub url: String,
}

/// Gateway URL and recommended shard information for a bot.
#[derive(Clone, Debug, PartialEq)]
pub struct GatewayBotObject {
    /// WSS URL for connecting to the gateway.
    pub url: String,
    /// Recommended number of shards to use when connecting.
    pub shards: u64,
    /// Budget of session starts the account may still spend.
    pub session_start_limit: SessionStartLimitObject,
}

/// Budget of session starts published by the platform.
#[derive(Clone, Copy, Debug, PartialEq, Eq, Structural)]
pub struct SessionStartLimitObject {
    /// Total number of session starts the current user is allowed.
    pub total: u64,
    /// Remaining number of session starts the current user is allowed.
    pub remaining: u64,
    /// Number of milliseconds after which the limit resets.
    pub reset_after: u64,
    /// Number of identify requests allowed per admission window.
    pub max_concurrency: u64,
}

/// A guild the client belongs to but cannot see into yet.
#[derive(Clone, Debug, PartialEq)]
pub struct UnavailableGuildObject {
    pub id: Snowflake,
    pub unavailable: bool,
}

/// A user account. Flag fields carry the platform's bit sets as plain
/// numbers.
#[derive(Clone, Debug)]
pub struct UserObject {
    /// The user's id.
    pub id: Snowflake,
    /// The user's name, not unique across the platform.
    pub username: String,
    /// The user's four-digit tag.
    pub discriminator: String,
    /// The user's avatar hash.
    pub avatar: Option<String>,
    /// Whether the user belongs to an OAuth2 application.
    pub bot: Option<bool>,
    /// Whether the user is an official system user.
    pub system: Option<bool>,
    /// Whether the user has two-factor authentication enabled.
    pub mfa_enabled: Option<bool>,
    /// The user's banner hash, when one is set.
    pub banner: Option<bool>,
    /// The user's banner color as a number.
    pub accent_color: Option<u64>,
    /// The user's chosen language option.
    pub local: Option<String>,
    /// Whether the email on the account has been verified.
    pub verified: Option<bool>,
    /// The user's email.
    pub email: Option<String>,
    /// The flag bits on the account.
    pub flags: Option<u64>,
    /// The kind of premium subscription on the account.
    pub premium_type: Option<PremiumType>,
    /// The public flag bits on the account.
    pub public_flags: Option<u64>,
}

/// Kind of premium subscription on a user account.
#[derive(Clone, Copy, Debug, PartialEq, Eq, Structural)]
pub enum PremiumType {
    NoSubscription,
    NitroClassic,
    Nitro,
    NitroBasic,
}

/// A connection of a user account to an outside service. The partial
/// integration objects are carried through unexamined.
#[derive(Debug)]
pub struct ConnectionObject {
    /// Id of the connection account.
    pub id: String,
    /// The username of the connection account.
    pub name: String,
    /// The service of the connection.
    pub ty: ConnectionService,
    /// Whether the connection is revoked.
    pub revoked: Option<bool>,
    /// Partial server integration objects.
    pub integrations: Option<serde_json::Value>,
    /// Whether the connection is verified.
    pub verified: bool,
    /// Whether friend sync is enabled for this connection.
    pub friend_sync: bool,
    /// Whether activity from this connection is shown.
    pub show_activity: bool,
    /// Whether this connection supports console voice transfer.
    pub two_way_link: bool,
    /// Visibility of this connection.
    pub visibility: ConnectionVisibility,
}

/// Service a user connection belongs to.
#[derive(Clone, Copy, Debug, PartialEq, Eq, Structural)]
pub enum ConnectionService {
    BattleNet,
    EBay,
    EpicGames,
    Facebook,
    GitHub,
    Instagram,
    LeagueOfLegends,
    PayPal,
    PlayStationNetwork,
    Reddit,
    RiotGames,
    Spotify,
    Skype,
    Steam,
    TikTok,
    Twitch,
    Twitter,
    Xbox,
    YouTube,
}

/// Visibility of a user connection.
#[derive(Clone, Copy, Debug, PartialEq, Eq, Structural)]
pub enum ConnectionVisibility {
    /// Invisible to everyone except the user themselves.
    Hidden,
    /// Visible to everyone.
    Everyone,
}

/// Placeholder body of a bodiless REST request.
#[derive(Clone, Copy, Debug, PartialEq, Eq, Structural)]
pub struct Dummy;

/// Options of the REST client.
#[derive(Clone, Copy, Debug, PartialEq, Eq, Structural)]
pub struct RequestManagerOptions {
    pub global_rate_limit: i32,
}

impl Default for RequestManagerOptions {
    fn default() -> (r: RequestManagerOptions)
        ensures
            r.global_rate_limit == 50,
    {
        RequestManagerOptions { global_rate_limit: 50 }
    }
}

} // verus!
