//! Support for pulling illustration galleries and animations from pixiv:
//! request/link parsing, API response data, and caption building.

pub mod config;
pub mod helper;
pub mod parser;
pub mod pixiv_illust_info;
pub mod pixiv_ugoira_meta;
pub mod types;
