//! Options of the pixiv integration.

use vstd::prelude::*;

verus! {

/// Caller-supplied options for the pixiv integration.
#[derive(Debug, Clone)]
pub struct PixivConfig {
    pub client_user_agent: Option<String>,
    pub php_sessid: Option<String>,
    pub enable_link_detection: bool,
    pub spoiler_nsfw: bool,
    pub spoiler_r18g: bool,
}

/// Default for recognizing bare pixiv links in ordinary messages.
pub fn default_enable_link_detection() -> (b: bool)
    ensures
        b == false,
{
    false
}

/// Default for spoiler-marking images tagged as not safe for work.
pub fn default_spoiler_nsfw() -> (b: bool)
    ensures
        b == true,
{
    true
}

/// Default for spoiler-marking images tagged as grotesque.
pub fn default_spoiler_r18g() -> (b: bool)
    ensures
        b == true,
{
    true
}

} // verus!
