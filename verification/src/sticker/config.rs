//! Options of the sticker integration.

use vstd::prelude::*;

verus! {

/// Caller-supplied options for sticker conversion.
#[derive(Debug, Clone)]
pub struct StickerConfig {
    pub size_limit_kb: u64,
}

/// Default upper bound on a converted sticker's size, in kibibytes.
pub fn size_limit_kb_default() -> (v: u64)
    ensures
        v == 512,
{
    512
}

} // verus!
