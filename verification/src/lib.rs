//! A small chat-bot library: a static city list with exact lookup and
//! case-insensitive autocompletion, a JSON parser for the weather
//! provider's responses, and formatters for the bot's replies.
//!
//! All I/O (the gateway connection, the HTTP call, OS statistics, the
//! uploader subprocess) lives outside this crate; the functions here are
//! pure and fully specified.

pub mod city;
pub mod dropbox;
pub mod info;
pub mod json;
pub mod ping;
pub mod text;
pub mod weather;

use vstd::prelude::*;

verus! {

/// Errors a command can surface to its caller.
#[derive(Debug, Clone, Copy, PartialEq, Eq, Structural)]
pub enum BotError {
    /// A required configuration value was absent.
    ConfigMissing,
    /// The query matched no city in the static list.
    NotFound,
    /// The provider could not be reached or the transfer failed.
    Network,
    /// The provider's response was not of the expected shape.
    Decode,
}

} // verus!
