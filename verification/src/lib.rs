//! Core of a media-bot's bulk fetch-and-archive pipeline.
//!
//! A caller turns a list of remote resources into fetch tasks, drains them
//! through a bounded worker pool, tracks progress, and packages the
//! successfully fetched payloads into a deterministic archive.

pub mod archive;
pub mod config;
pub mod download;
pub mod helper;
pub mod kemono;
pub mod monitor;
pub mod numfmt;
pub mod pipeline;
pub mod pixiv;
pub mod pool;
pub mod probe;
pub mod progress;
pub mod queue;
pub mod shared;
pub mod sticker;
pub mod strutil;
pub mod task;
pub mod telegraph;
pub mod types;
