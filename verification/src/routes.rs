//! REST routes the runtime consumes, and the versioned API base they
//! are appended to.

use vstd::prelude::*;
use vstd::string::StringExecFns;

verus! {

/// Route of the plain gateway endpoint.
pub fn gateway() -> (r: String)
    ensures
        r@ == "/gateway"@,
{
    "/gateway".to_owned()
}

/// Route of the bot gateway endpoint, which carries the shard count and
/// the session start limit.
pub fn gateway_bot() -> (r: String)
    ensures
        r@ == "/gateway/bot"@,
{
    "/gateway/bot".to_owned()
}

/// Full URL of a route under the versioned API base.
pub fn api(route: &str) -> (r: String)
    ensures
        r@ == "https://discord.com/api/v10"@ + route@,
{
    "https://discord.com/api/v10".to_owned().concat(route)
}

/// Value of the authorization header a bot presents.
pub fn bot_authorization(token: &str) -> (r: String)
    ensures
        r@ == "Bot "@ + token@,
{
    "Bot ".to_owned().concat(token)
}

} // verus!
