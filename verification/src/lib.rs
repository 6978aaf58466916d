//! A typed command-registration and dispatch layer for a chat platform's
//! slash-command protocol.
//!
//! The crate compiles a closed, enumerable set of command descriptors into the
//! nested registration payload the platform expects, and routes an inbound
//! invocation back to exactly one typed handler with well-defined error
//! semantics.

use vstd::prelude::*;

pub mod cmd;
pub mod dispatch;
pub mod discord;
pub mod payload;
pub mod registry;
pub mod sample;

verus! {

/// Process arguments: the path of the configuration file.
pub struct Arguments {
    pub cfg_path: String,
}

/// Everything the process needs at startup, as read from the configuration
/// file by the hosting binary.
pub struct Configuration {
    pub discord: DiscordConfiguration,
    pub home_guild: HomeGuildConfiguration,
    pub database: DatabaseConfiguration,
}

/// An opaque database locator, threaded unexamined through the execution
/// context into command bodies.
pub struct DatabaseConfiguration {
    pub url: String,
}

/// Credentials for the chat platform.
pub struct DiscordConfiguration {
    pub token: String,
    pub application: u64,
}

/// The guild that guild-scoped commands are registered against.
pub struct HomeGuildConfiguration {
    pub id: u64,
}

} // verus!
