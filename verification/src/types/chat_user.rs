//! Identity of a sender within a chat.

use vstd::prelude::*;

verus! {

/// A chat and the sender acting in it, as one key.
#[derive(Debug, Clone, Copy, PartialEq, Eq, Hash, Structural)]
pub struct ChatSender {
    pub chat_id: i64,
    pub sender_id: i64,
}

impl ChatSender {
    /// Builds the key from its two ids.
    pub fn of(chat_id: i64, sender_id: i64) -> (r: ChatSender)
        ensures
            r.chat_id == chat_id,
            r.sender_id == sender_id,
    {
        ChatSender { chat_id, sender_id }
    }
}

} // verus!
