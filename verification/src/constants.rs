//! Fixed texts of the client.

use vstd::prelude::*;

verus! {

/// The base address of the production API. A forwarding proxy stands in for
/// exactly this text.
pub const API_BASE: &'static str = "https://discord.com/";

/// The `User-Agent` sent where the caller supplies no header set.
pub const USER_AGENT: &'static str = "DiscordBot (https://discord.com, 0.1.0)";

/// The `Content-Type` assumed for a body whose sender names none.
pub const JSON_CONTENT: &'static str = "application/json";

} // verus!
