//! Conversational state shared across message handlers.

use vstd::prelude::*;

use crate::sticker::ChatStickerState;

verus! {

/// The modal state a chat can be in.
#[derive(Debug, Clone, Copy, PartialEq, Eq, Structural)]
pub enum ChatState {
    Sticker(ChatStickerState),
}

} // verus!
