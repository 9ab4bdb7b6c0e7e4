//! The bot's top-level configuration.

pub mod telegram;

use vstd::prelude::*;

use crate::config::telegram::TelegramConfig;
use crate::kemono::config::KemonoConfig;
use crate::pixiv::config::PixivConfig;

verus! {

/// The caller-supplied configuration: messaging credentials and the
/// per-integration options.
#[derive(Debug, Clone)]
pub struct BotConfig {
    pub telegram: TelegramConfig,
    pub pixiv: PixivConfig,
    pub kemono: KemonoConfig,
}

} // verus!
