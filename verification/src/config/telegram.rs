//! Messaging API credentials.

use vstd::prelude::*;

verus! {

/// The bot's API token and the API server it talks to.
#[derive(Debug, Clone)]
pub struct TelegramConfig {
    pub token: String,
    pub bot_api_server: String,
}

} // verus!
