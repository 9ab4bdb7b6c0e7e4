//! Shared primitive types of the bot.

pub mod chat_user;
pub mod file_name;

pub use chat_user::ChatSender;
pub use file_name::FileName;
