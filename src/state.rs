//! Plain records shared with the chat layer: what the bot waits for from a
//! user, and chat counts.

use vstd::prelude::*;

verus! {

/// What the bot waits for from a user.
#[derive(Debug, Clone)]
pub enum BotState {
    /// Nothing in particular.
    Idle,
    /// The emoji to hide `text` behind.
    AwaitingCustomEmoji { text: String },
    /// The emoji to hide the attachment `file_id` behind.
    AwaitingFileEmoji { file_id: String, file_type: String },
}

/// How many chats of each kind the bot has seen.
#[derive(Debug, Clone, Copy, PartialEq, Eq, Structural)]
pub struct Stats {
    pub total_chats: u64,
    pub users: u64,
    pub groups: u64,
    pub channels: u64,
}

} // verus!
