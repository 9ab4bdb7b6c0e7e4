//! Building page content for the telegraph publishing API.

pub mod request;
pub mod types;
