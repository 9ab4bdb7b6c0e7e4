//! Small helpers around names, downloads and log timestamps.

pub mod download;
pub mod log;
pub mod name_utils;
