//! Identifiers of the API's objects.

use vstd::prelude::*;

verus! {

/// An identifier for an application.
#[derive(Clone, Copy, Debug, PartialEq, Eq, Hash, Structural)]
pub struct ApplicationId(pub u64);

/// An identifier for an application command.
#[derive(Clone, Copy, Debug, PartialEq, Eq, Hash, Structural)]
pub struct CommandId(pub u64);

/// An identifier for a channel.
#[derive(Clone, Copy, Debug, PartialEq, Eq, Hash, Structural)]
pub struct ChannelId(pub u64);

/// An identifier for a guild.
#[derive(Clone, Copy, Debug, PartialEq, Eq, Hash, Structural)]
pub struct GuildId(pub u64);

/// An identifier for a message.
#[derive(Clone, Copy, Debug, PartialEq, Eq, Hash, Structural)]
pub struct MessageId(pub u64);

/// An identifier for a user.
#[derive(Clone, Copy, Debug, PartialEq, Eq, Hash, Structural)]
pub struct UserId(pub u64);

impl Default for UserId {
    /// The identifier zero.
    fn default() -> (id: Self)
        ensures
            id == UserId(0),
    {
        UserId(0)
    }
}

} // verus!
