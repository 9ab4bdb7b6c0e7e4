//! Options of the kemono integration.

use vstd::prelude::*;

verus! {

/// Caller-supplied options for the kemono integration.
#[derive(Debug, Clone)]
pub struct KemonoConfig {
    pub client_user_agent: Option<String>,
    pub enable_kemono_link_detection: bool,
    pub enable_fanbox_link_detection: bool,
}

/// Default for recognizing bare kemono links in ordinary messages.
pub fn default_enable_kemono_link_detection() -> (b: bool)
    ensures
        b == false,
{
    false
}

/// Default for recognizing bare fanbox links in ordinary messages.
pub fn default_enable_fanbox_link_detection() -> (b: bool)
    ensures
        b == false,
{
    false
}

} // verus!
